use librs_apic::apic::{AlreadyCalibrated, Apic};
use librs_apic::registers::{ControllerMode, Op};
use librs_apic::timer::{calibrated_value, calibration_cycles, calibration_deadline, oneshot_ticks};

#[test]
fn calibration_divides_by_three() {
    assert_eq!(calibrated_value(u32::MAX - 300), 100);
    assert_eq!(calibrated_value(u32::MAX - 301), 100);
    assert_eq!(calibrated_value(u32::MAX - 3), 1);
    assert_eq!(calibrated_value(u32::MAX), 0);
    assert_eq!(calibrated_value(0), u32::MAX / 3);
}

#[test]
fn calibration_window_cycles() {
    assert_eq!(calibration_cycles(2000, 100), 60_000_000);
    assert_eq!(calibration_cycles(3, 7), 3 * (3_000_000 / 7));
    assert_eq!(calibration_deadline(10, 5), 15);
    assert_eq!(calibration_deadline(u64::MAX - 1, 5), u64::MAX);
}

#[test]
fn oneshot_interval_is_at_least_one() {
    assert_eq!(oneshot_ticks(5, 10), 1);
    assert_eq!(oneshot_ticks(10, 10), 1);
    assert_eq!(oneshot_ticks(15, 10), 5);
}

#[test]
fn calibration_happens_once() {
    let mut apic = Apic::init(true, vec![0]);
    assert_eq!(apic.calibrated_counter_value(), None);
    assert_eq!(apic.finish_calibration(u32::MAX - 300), Ok(100));
    assert_eq!(apic.finish_calibration(0), Err(AlreadyCalibrated { counter_value: 100 }));
    assert_eq!(apic.calibrated_counter_value(), Some(100));
}

#[test]
fn calibration_window_setup() {
    let apic = Apic::init(true, vec![0]);
    let mut out = Vec::new();
    apic.calibrate_timer(&mut out);
    assert_eq!(
        out,
        vec![
            Op::WriteMsr { msr: 0x83e, value: 0b1010 },
            Op::WriteMsr { msr: 0x838, value: 0xffff_ffff },
        ]
    );
}

#[test]
fn arm_and_disarm_oneshot_timer() {
    let mut apic = Apic::init(true, vec![0]);
    apic.finish_calibration(u32::MAX - 300).unwrap();
    let mut out = Vec::new();
    apic.set_oneshot_timer(Some(15), 10, &mut out);
    assert_eq!(
        out,
        vec![Op::WriteMsr { msr: 0x832, value: 123 }, Op::WriteMsr { msr: 0x838, value: 500 }]
    );
    let mut past = Vec::new();
    apic.set_oneshot_timer(Some(3), 10, &mut past);
    assert_eq!(past[1], Op::WriteMsr { msr: 0x838, value: 100 });
    let mut off = Vec::new();
    apic.set_oneshot_timer(None, 10, &mut off);
    assert_eq!(off, vec![Op::WriteMsr { msr: 0x832, value: 0x10000 }]);
}

#[test]
fn mapped_mode_arms_through_window() {
    let mut apic = Apic::init(false, vec![0]);
    assert_eq!(apic.mode(), ControllerMode::MemoryMapped);
    apic.finish_calibration(u32::MAX - 30).unwrap();
    let mut out = Vec::new();
    apic.set_oneshot_timer(Some(12), 10, &mut out);
    assert_eq!(
        out,
        vec![Op::LapicStore { offset: 0x320, value: 123 }, Op::LapicStore { offset: 0x380, value: 20 }]
    );
}
