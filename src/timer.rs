//! Calibration of the controller's timer, and the length of a one-shot interval.

use vstd::prelude::*;

verus! {

/// Ticks of the reference clock that calibration waits for.
pub const CALIBRATION_TICKS: u32 = 3;

/// The counter value for one tick, from the count read after the calibration
/// wait (the counter was loaded with `u32::MAX`).
pub open spec fn spec_calibrated_value(current_count: u32) -> u32 {
    ((u32::MAX - current_count) / CALIBRATION_TICKS as int) as u32
}

/// Ticks until `wakeup_time`, never fewer than one.
pub open spec fn spec_oneshot_ticks(wakeup_time: u64, current_time: u64) -> u64 {
    if wakeup_time > current_time {
        (wakeup_time - current_time) as u64
    } else {
        1
    }
}

/// Processor cycles in the calibration window: three ticks of a timer running at
/// `timer_frequency` Hz on a processor running at `frequency_mhz` MHz.
pub open spec fn spec_calibration_cycles(frequency_mhz: u32, timer_frequency: u32) -> u64 {
    (CALIBRATION_TICKS as int * ((frequency_mhz as int * 1_000_000) / timer_frequency as int)) as u64
}

/// Processor cycles to wait for during calibration.
pub fn calibration_cycles(frequency_mhz: u32, timer_frequency: u32) -> (r: u64)
    requires
        timer_frequency > 0,
    ensures
        r == spec_calibration_cycles(frequency_mhz, timer_frequency),
{
    let cycles = frequency_mhz as u64 * 1_000_000;
    let cycles_per_tick = cycles / timer_frequency as u64;
    assert(cycles_per_tick <= cycles) by (nonlinear_arith)
        requires
            cycles_per_tick == cycles as int / timer_frequency as int,
            timer_frequency > 0,
            cycles >= 0,
    ;
    assert(cycles <= 0xffff_ffffu64 * 1_000_000);
    3 * cycles_per_tick
}

/// The timestamp at which the calibration wait that began at `start` ends; the
/// latest timestamp if that lies beyond the counter's range.
pub fn calibration_deadline(start: u64, cycles: u64) -> (r: u64)
    ensures
        r == (if start as int + cycles as int > u64::MAX { u64::MAX } else { (start + cycles) as u64 }),
{
    start.saturating_add(cycles)
}

/// The counter value for one tick, from the count read after the calibration wait.
///
/// It is at least one whenever the counter advanced by at least three.
pub fn calibrated_value(current_count: u32) -> (r: u32)
    ensures
        r == spec_calibrated_value(current_count),
        current_count <= u32::MAX - CALIBRATION_TICKS ==> r >= 1,
{
    (u32::MAX - current_count) / CALIBRATION_TICKS
}

/// Ticks to program for a wake-up at `wakeup_time` when the tickless clock reads
/// `current_time`: the distance, or one where the time has come already.
pub fn oneshot_ticks(wakeup_time: u64, current_time: u64) -> (r: u64)
    ensures
        r == spec_oneshot_ticks(wakeup_time, current_time),
        r >= 1,
        wakeup_time <= current_time ==> r == 1,
{
    if wakeup_time > current_time {
        wakeup_time - current_time
    } else {
        1
    }
}

} // verus!
