//! The subsystem's context: the controller mode, the enrolled processors and
//! the calibrated timer value, with every operation that reads them.

use vstd::prelude::*;
use crate::registers::{
    local_apic_read, local_apic_write, spec_local_apic_write, ControllerMode, Op, ReadLocation,
    APIC_DIV_CONF_DIVIDE_BY_128, APIC_EOI_ACK, APIC_ICR_DELIVERY_MODE_FIXED,
    APIC_ICR_DELIVERY_MODE_INIT, APIC_ICR_DELIVERY_MODE_STARTUP, APIC_ICR_LEVEL_ASSERT,
    APIC_ICR_LEVEL_TRIGGERED, APIC_LVT_MASK, APIC_SIVR_ENABLED, ERROR_INTERRUPT_NUMBER,
    IA32_X2APIC_CUR_COUNT, IA32_X2APIC_DIV_CONF, IA32_X2APIC_EOI, IA32_X2APIC_ESR,
    IA32_X2APIC_ICR, IA32_X2APIC_INIT_COUNT, IA32_X2APIC_LVT_ERROR, IA32_X2APIC_LVT_LINT0,
    IA32_X2APIC_LVT_LINT1, IA32_X2APIC_LVT_PMI, IA32_X2APIC_LVT_THERMAL, IA32_X2APIC_LVT_TIMER,
    IA32_X2APIC_SIVR, IA32_X2APIC_TPR, SPURIOUS_INTERRUPT_NUMBER, TIMER_INTERRUPT_NUMBER,
    TLB_FLUSH_INTERRUPT_NUMBER, WAKEUP_INTERRUPT_NUMBER,
};
use crate::smp::{
    fixed_command, non_self_ids, spec_boot_one, spec_boot_sequence, spec_broadcast,
    spec_tlb_flush, INIT_ASSERT_DELAY_US, INIT_DEASSERT_DELAY_US, SMP_BOOT_CODE_ADDRESS,
};
use crate::timer::{calibrated_value, oneshot_ticks, spec_calibrated_value, spec_oneshot_ticks};

verus! {

/// The calibrated timer value is set once per boot; a second calibration is refused.
#[derive(Clone, Copy, Debug, PartialEq, Eq, Structural)]
pub struct AlreadyCalibrated {
    pub counter_value: u32,
}

/// State shared by every core once bring-up has begun: written during boot,
/// read-only afterwards.
#[derive(Debug)]
pub struct Apic {
    mode: ControllerMode,
    cpu_local_apic_ids: Vec<u8>,
    calibrated_counter_value: Option<u32>,
}

/// Masking the unused local vector table entries, routing errors, accepting
/// every priority and enabling the controller with its spurious vector.
pub open spec fn spec_init_local_apic(mode: ControllerMode) -> Seq<Op> {
    spec_local_apic_write(mode, IA32_X2APIC_LVT_TIMER, APIC_LVT_MASK) + spec_local_apic_write(
        mode,
        IA32_X2APIC_LVT_THERMAL,
        APIC_LVT_MASK,
    ) + spec_local_apic_write(mode, IA32_X2APIC_LVT_PMI, APIC_LVT_MASK) + spec_local_apic_write(
        mode,
        IA32_X2APIC_LVT_LINT0,
        APIC_LVT_MASK,
    ) + spec_local_apic_write(mode, IA32_X2APIC_LVT_LINT1, APIC_LVT_MASK) + spec_local_apic_write(
        mode,
        IA32_X2APIC_LVT_ERROR,
        ERROR_INTERRUPT_NUMBER as u64,
    ) + spec_local_apic_write(mode, IA32_X2APIC_TPR, 0) + spec_local_apic_write(
        mode,
        IA32_X2APIC_SIVR,
        APIC_SIVR_ENABLED | (SPURIOUS_INTERRUPT_NUMBER as u64),
    )
}

/// Arming the one-shot timer with the initial count `counter`, or masking it.
pub open spec fn spec_oneshot_timer(mode: ControllerMode, counter: Option<u64>) -> Seq<Op> {
    match counter {
        Some(c) => spec_local_apic_write(mode, IA32_X2APIC_LVT_TIMER, TIMER_INTERRUPT_NUMBER as u64)
            + spec_local_apic_write(mode, IA32_X2APIC_INIT_COUNT, c),
        None => spec_local_apic_write(mode, IA32_X2APIC_LVT_TIMER, APIC_LVT_MASK),
    }
}

impl Apic {
    /// The controller mode.
    pub closed spec fn spec_mode(&self) -> ControllerMode {
        self.mode
    }

    /// The enrolled processor ids: index = CPU number.
    pub closed spec fn spec_cpu_ids(&self) -> Seq<u8> {
        self.cpu_local_apic_ids@
    }

    /// The calibrated counter value, once calibration has run.
    pub closed spec fn spec_calibrated(&self) -> Option<u32> {
        self.calibrated_counter_value
    }

    /// The context for a processor with or without the register-file model, and
    /// the enabled processor ids that discovery found.
    pub fn init(supports_x2apic: bool, cpu_local_apic_ids: Vec<u8>) -> (r: Apic)
        ensures
            r.spec_mode() == (if supports_x2apic {
                ControllerMode::RegisterFile
            } else {
                ControllerMode::MemoryMapped
            }),
            r.spec_cpu_ids() == cpu_local_apic_ids@,
            r.spec_calibrated() is None,
    {
        let mode = crate::registers::select_mode(supports_x2apic);
        Apic { mode, cpu_local_apic_ids, calibrated_counter_value: None }
    }

    /// The controller mode.
    pub fn mode(&self) -> (r: ControllerMode)
        ensures
            r == self.spec_mode(),
    {
        self.mode
    }

    /// The number of enrolled processors.
    pub fn cpu_count(&self) -> (r: usize)
        ensures
            r == self.spec_cpu_ids().len(),
    {
        self.cpu_local_apic_ids.len()
    }

    /// The calibrated counter value, once calibration has run.
    pub fn calibrated_counter_value(&self) -> (r: Option<u32>)
        ensures
            r == self.spec_calibrated(),
    {
        self.calibrated_counter_value
    }

    /// Signals the end of an interrupt.
    pub fn eoi(&self, out: &mut Vec<Op>)
        ensures
            final(out)@ == old(out)@ + spec_local_apic_write(
                self.spec_mode(),
                IA32_X2APIC_EOI,
                APIC_EOI_ACK,
            ),
    {
        local_apic_write(self.mode, IA32_X2APIC_EOI, APIC_EOI_ACK, out);
    }

    /// Where the controller's error status is read from.
    pub fn error_status_location(&self) -> (r: ReadLocation)
        ensures
            r == (match self.spec_mode() {
                ControllerMode::RegisterFile => ReadLocation::Msr { msr: IA32_X2APIC_ESR },
                ControllerMode::MemoryMapped => ReadLocation::Lapic {
                    offset: crate::registers::xapic_offset(IA32_X2APIC_ESR),
                },
            }),
    {
        local_apic_read(self.mode, IA32_X2APIC_ESR)
    }

    /// Initialises this core's local controller.
    pub fn init_local_apic(&self, out: &mut Vec<Op>)
        ensures
            final(out)@ == old(out)@ + spec_init_local_apic(self.spec_mode()),
    {
        let mode = self.mode;
        local_apic_write(mode, IA32_X2APIC_LVT_TIMER, APIC_LVT_MASK, out);
        local_apic_write(mode, IA32_X2APIC_LVT_THERMAL, APIC_LVT_MASK, out);
        local_apic_write(mode, IA32_X2APIC_LVT_PMI, APIC_LVT_MASK, out);
        local_apic_write(mode, IA32_X2APIC_LVT_LINT0, APIC_LVT_MASK, out);
        local_apic_write(mode, IA32_X2APIC_LVT_LINT1, APIC_LVT_MASK, out);
        local_apic_write(mode, IA32_X2APIC_LVT_ERROR, ERROR_INTERRUPT_NUMBER as u64, out);
        local_apic_write(mode, IA32_X2APIC_TPR, 0, out);
        local_apic_write(
            mode,
            IA32_X2APIC_SIVR,
            APIC_SIVR_ENABLED | (SPURIOUS_INTERRUPT_NUMBER as u64),
            out,
        );
        proof {
            assert(final(out)@ =~= old(out)@ + spec_init_local_apic(mode));
        }
    }

    /// Starts the calibration window: the divisor 128, and the counter loaded with
    /// its largest value. The caller then waits for three reference ticks with
    /// interrupts off, reads the current count and hands it to [`Apic::finish_calibration`].
    pub fn calibrate_timer(&self, out: &mut Vec<Op>)
        ensures
            final(out)@ == old(out)@ + spec_local_apic_write(
                self.spec_mode(),
                IA32_X2APIC_DIV_CONF,
                APIC_DIV_CONF_DIVIDE_BY_128,
            ) + spec_local_apic_write(self.spec_mode(), IA32_X2APIC_INIT_COUNT, u32::MAX as u64),
    {
        local_apic_write(self.mode, IA32_X2APIC_DIV_CONF, APIC_DIV_CONF_DIVIDE_BY_128, out);
        local_apic_write(self.mode, IA32_X2APIC_INIT_COUNT, u32::MAX as u64, out);
    }

    /// Where the timer's current count is read from.
    pub fn current_count_location(&self) -> (r: ReadLocation)
        ensures
            r == (match self.spec_mode() {
                ControllerMode::RegisterFile => ReadLocation::Msr { msr: IA32_X2APIC_CUR_COUNT },
                ControllerMode::MemoryMapped => ReadLocation::Lapic {
                    offset: crate::registers::xapic_offset(IA32_X2APIC_CUR_COUNT),
                },
            }),
    {
        local_apic_read(self.mode, IA32_X2APIC_CUR_COUNT)
    }

    /// Ends calibration with the count read after the wait, and keeps
    /// `(u32::MAX - current_count) / 3` for every core. Refused once a value is kept.
    pub fn finish_calibration(&mut self, current_count: u32) -> (r: Result<u32, AlreadyCalibrated>)
        ensures
            final(self).spec_mode() == old(self).spec_mode(),
            final(self).spec_cpu_ids() == old(self).spec_cpu_ids(),
            old(self).spec_calibrated() is None ==> r == Ok::<u32, AlreadyCalibrated>(
                spec_calibrated_value(current_count),
            ) && final(self).spec_calibrated() == Some(spec_calibrated_value(current_count)),
            old(self).spec_calibrated() is Some ==> r == Err::<u32, AlreadyCalibrated>(
                AlreadyCalibrated { counter_value: old(self).spec_calibrated()->0 },
            ) && final(self).spec_calibrated() == old(self).spec_calibrated(),
    {
        match self.calibrated_counter_value {
            Some(v) => Err(AlreadyCalibrated { counter_value: v }),
            None => {
                let v = calibrated_value(current_count);
                self.calibrated_counter_value = Some(v);
                Ok(v)
            },
        }
    }

    /// Arms the one-shot timer to fire at `wakeup_time` of the tickless clock,
    /// which reads `current_time` now, and at least one tick from now; or masks
    /// the timer when there is no wake-up time.
    pub fn set_oneshot_timer(&self, wakeup_time: Option<u64>, current_time: u64, out: &mut Vec<Op>)
        requires
            wakeup_time is Some ==> self.spec_calibrated() is Some && self.spec_calibrated()->0 as int
                * spec_oneshot_ticks(wakeup_time->0, current_time) <= u64::MAX,
        ensures
            final(out)@ == old(out)@ + spec_oneshot_timer(
                self.spec_mode(),
                match wakeup_time {
                    Some(wt) => Some(
                        (self.spec_calibrated()->0 as int * spec_oneshot_ticks(
                            wt,
                            current_time,
                        )) as u64,
                    ),
                    None => None,
                },
            ),
    {
        match wakeup_time {
            Some(wt) => {
                let ticks = oneshot_ticks(wt, current_time);
                let counter = match self.calibrated_counter_value {
                    Some(c) => c,
                    None => 0,
                };
                local_apic_write(
                    self.mode,
                    IA32_X2APIC_LVT_TIMER,
                    TIMER_INTERRUPT_NUMBER as u64,
                    out,
                );
                local_apic_write(self.mode, IA32_X2APIC_INIT_COUNT, counter as u64 * ticks, out);
            },
            None => {
                local_apic_write(self.mode, IA32_X2APIC_LVT_TIMER, APIC_LVT_MASK, out);
            },
        }
    }

    /// Brings up every enrolled processor but `core_id`, one at a time and in
    /// enumeration order: hand-off, snapshot of the online counter, INIT assert,
    /// 200 µs, INIT de-assert, 10 ms, STARTUP at the boot page, then the wait for
    /// the online counter to move before the next processor's hand-off.
    pub fn boot_application_processors(&self, core_id: u8, out: &mut Vec<Op>)
        ensures
            final(out)@ == old(out)@ + spec_boot_sequence(
                self.spec_mode(),
                non_self_ids(self.spec_cpu_ids(), core_id),
            ),
    {
        let mode = self.mode;
        let ids = &self.cpu_local_apic_ids;
        let mut i: usize = 0;
        while i < ids.len()
            invariant
                i <= ids@.len(),
                ids@ == self.spec_cpu_ids(),
                mode == self.spec_mode(),
                out@ == old(out)@ + spec_boot_sequence(mode, non_self_ids(ids@.subrange(0, i as int), core_id)),
            decreases ids@.len() - i,
        {
            let apic_id = ids[i];
            let ghost before = out@;
            let ghost prefix = ids@.subrange(0, i as int);
            if apic_id != core_id {
                let destination: u64 = (apic_id as u64) << 32u64;
                out.push(Op::PublishHandoff { apic_id });
                out.push(Op::SnapshotOnline);
                local_apic_write(
                    mode,
                    IA32_X2APIC_ICR,
                    destination | APIC_ICR_LEVEL_TRIGGERED | APIC_ICR_LEVEL_ASSERT
                        | APIC_ICR_DELIVERY_MODE_INIT,
                    out,
                );
                out.push(Op::Delay { micros: INIT_ASSERT_DELAY_US });
                local_apic_write(
                    mode,
                    IA32_X2APIC_ICR,
                    destination | APIC_ICR_LEVEL_TRIGGERED | APIC_ICR_DELIVERY_MODE_INIT,
                    out,
                );
                out.push(Op::Delay { micros: INIT_DEASSERT_DELAY_US });
                local_apic_write(
                    mode,
                    IA32_X2APIC_ICR,
                    destination | APIC_ICR_DELIVERY_MODE_STARTUP | ((SMP_BOOT_CODE_ADDRESS as u64)
                        >> 12u64),
                    out,
                );
                out.push(Op::AwaitOnlineChange);
                proof {
                    assert(out@ =~= before + spec_boot_one(mode, apic_id));
                }
            }
            proof {
                let next = ids@.subrange(0, i + 1);
                assert(next.drop_last() =~= prefix);
                let targets = non_self_ids(prefix, core_id);
                if apic_id != core_id {
                    assert(targets.push(apic_id).drop_last() =~= targets);
                    assert(out@ =~= old(out)@ + spec_boot_sequence(mode, non_self_ids(next, core_id)));
                }
            }
            i = i + 1;
        }
        proof {
            assert(ids@.subrange(0, ids@.len() as int) =~= ids@);
        }
    }

    /// Asks every other enrolled processor to reload its address translation:
    /// nothing while at most one processor is online, else a memory barrier and
    /// one message per other enrolled id, in enumeration order.
    pub fn ipi_tlb_flush(&self, cpu_online: u32, core_id: u8, out: &mut Vec<Op>)
        ensures
            final(out)@ == old(out)@ + spec_tlb_flush(
                self.spec_mode(),
                self.spec_cpu_ids(),
                core_id,
                cpu_online,
            ),
    {
        if cpu_online > 1 {
            out.push(Op::MemoryFence);
            let mode = self.mode;
            let ids = &self.cpu_local_apic_ids;
            let ghost start = out@;
            let mut i: usize = 0;
            while i < ids.len()
                invariant
                    i <= ids@.len(),
                    ids@ == self.spec_cpu_ids(),
                    mode == self.spec_mode(),
                    start == old(out)@.push(Op::MemoryFence),
                    out@ == start + spec_broadcast(
                        mode,
                        non_self_ids(ids@.subrange(0, i as int), core_id),
                        TLB_FLUSH_INTERRUPT_NUMBER,
                    ),
                decreases ids@.len() - i,
            {
                let apic_id = ids[i];
                let ghost prefix = ids@.subrange(0, i as int);
                if apic_id != core_id {
                    let destination: u64 = (apic_id as u64) << 32u64;
                    local_apic_write(
                        mode,
                        IA32_X2APIC_ICR,
                        destination | APIC_ICR_LEVEL_ASSERT | APIC_ICR_DELIVERY_MODE_FIXED | (
                        TLB_FLUSH_INTERRUPT_NUMBER as u64),
                        out,
                    );
                }
                proof {
                    let next = ids@.subrange(0, i + 1);
                    assert(next.drop_last() =~= prefix);
                    let targets = non_self_ids(prefix, core_id);
                    if apic_id != core_id {
                        assert(targets.push(apic_id).drop_last() =~= targets);
                    }
                    assert(out@ =~= start + spec_broadcast(
                        mode,
                        non_self_ids(next, core_id),
                        TLB_FLUSH_INTERRUPT_NUMBER,
                    ));
                }
                i = i + 1;
            }
            proof {
                assert(ids@.subrange(0, ids@.len() as int) =~= ids@);
                assert(out@ =~= old(out)@ + spec_tlb_flush(mode, ids@, core_id, cpu_online));
            }
        } else {
            proof {
                assert(out@ =~= old(out)@ + spec_tlb_flush(self.mode, self.spec_cpu_ids(), core_id, cpu_online));
            }
        }
    }

    /// The processor id of CPU number `cpu_number`, if there is such a CPU.
    pub fn get_core_id_for_cpu_number(&self, cpu_number: usize) -> (r: Option<u32>)
        ensures
            cpu_number < self.spec_cpu_ids().len() ==> r == Some(
                self.spec_cpu_ids()[cpu_number as int] as u32,
            ),
            cpu_number >= self.spec_cpu_ids().len() ==> r is None,
    {
        if cpu_number < self.cpu_local_apic_ids.len() {
            Some(self.cpu_local_apic_ids[cpu_number] as u32)
        } else {
            None
        }
    }

    /// Sends the wake-up message to `core_to_wakeup`, unless that is the sender `core_id`.
    pub fn wakeup_core(&self, core_to_wakeup: u32, core_id: u32, out: &mut Vec<Op>)
        ensures
            final(out)@ == old(out)@ + (if core_to_wakeup != core_id {
                spec_local_apic_write(
                    self.spec_mode(),
                    IA32_X2APIC_ICR,
                    fixed_command(core_to_wakeup as u64, WAKEUP_INTERRUPT_NUMBER),
                )
            } else {
                Seq::<Op>::empty()
            }),
    {
        if core_to_wakeup != core_id {
            let destination: u64 = (core_to_wakeup as u64) << 32u64;
            local_apic_write(
                self.mode,
                IA32_X2APIC_ICR,
                destination | APIC_ICR_LEVEL_ASSERT | APIC_ICR_DELIVERY_MODE_FIXED | (
                WAKEUP_INTERRUPT_NUMBER as u64),
                out,
            );
        } else {
            proof {
                assert(out@ =~= old(out)@ + Seq::<Op>::empty());
            }
        }
    }
}

} // verus!
