use librs_apic::apic::Apic;
use librs_apic::handlers::{handler_steps, HandlerStep};
use librs_apic::registers::Op;
use librs_apic::smp::{prepare_boot_code, BootCodeError};

fn msr(value: u64) -> Op {
    Op::WriteMsr { msr: 0x830, value }
}

#[test]
fn bring_up_sequence_per_processor() {
    let apic = Apic::init(true, vec![0, 1, 2]);
    let mut out = Vec::new();
    apic.boot_application_processors(0, &mut out);
    let mut expected = Vec::new();
    for id in [1u64, 2] {
        expected.push(Op::PublishHandoff { apic_id: id as u8 });
        expected.push(Op::SnapshotOnline);
        expected.push(msr((id << 32) | 0xc500));
        expected.push(Op::Delay { micros: 200 });
        expected.push(msr((id << 32) | 0x8500));
        expected.push(Op::Delay { micros: 10000 });
        expected.push(msr((id << 32) | 0x0608));
        expected.push(Op::AwaitOnlineChange);
    }
    assert_eq!(out, expected);
}

#[test]
fn bring_up_skips_self_anywhere_in_order() {
    let apic = Apic::init(true, vec![3, 0, 5]);
    let mut out = Vec::new();
    apic.boot_application_processors(0, &mut out);
    let handoffs: Vec<u8> = out
        .iter()
        .filter_map(|op| match op {
            Op::PublishHandoff { apic_id } => Some(*apic_id),
            _ => None,
        })
        .collect();
    assert_eq!(handoffs, vec![3, 5]);
    assert_eq!(out.len(), 16);
    assert_eq!(out[7], Op::AwaitOnlineChange);
    assert_eq!(out[8], Op::PublishHandoff { apic_id: 5 });
}

#[test]
fn bring_up_in_mapped_mode_waits_on_each_message() {
    let apic = Apic::init(false, vec![0, 1]);
    let mut out = Vec::new();
    apic.boot_application_processors(0, &mut out);
    assert_eq!(out.len(), 2 + 3 + 1 + 3 + 1 + 3 + 1);
    assert_eq!(out[2], Op::LapicStore { offset: 0x310, value: 0x0100_0000 });
    assert_eq!(out[3], Op::LapicStore { offset: 0x300, value: 0xc500 });
    assert_eq!(out[4], Op::LapicAwaitIdle { offset: 0x300 });
    assert_eq!(out[11], Op::LapicStore { offset: 0x300, value: 0x0608 });
    assert_eq!(out[13], Op::AwaitOnlineChange);
}

#[test]
fn single_processor_boots_nothing() {
    let apic = Apic::init(true, vec![0]);
    let mut out = Vec::new();
    apic.boot_application_processors(0, &mut out);
    assert!(out.is_empty());
}

#[test]
fn invalidation_is_silent_on_one_processor() {
    let apic = Apic::init(true, vec![0, 1, 2]);
    let mut out = Vec::new();
    apic.ipi_tlb_flush(1, 0, &mut out);
    assert!(out.is_empty());
}

#[test]
fn invalidation_reaches_every_other_processor() {
    let apic = Apic::init(true, vec![0, 1, 2, 3]);
    let mut out = Vec::new();
    apic.ipi_tlb_flush(4, 2, &mut out);
    assert_eq!(
        out,
        vec![
            Op::MemoryFence,
            msr(0x4070),
            msr((1u64 << 32) | 0x4070),
            msr((3u64 << 32) | 0x4070),
        ]
    );
}

#[test]
fn wake_up_other_core_only() {
    let apic = Apic::init(true, vec![0, 3]);
    let mut out = Vec::new();
    apic.wakeup_core(3, 0, &mut out);
    assert_eq!(out, vec![msr(0x3_0000_4079)]);
    let mut none = Vec::new();
    apic.wakeup_core(0, 0, &mut none);
    assert!(none.is_empty());
}

#[test]
fn core_id_for_cpu_number() {
    let apic = Apic::init(true, vec![4, 7]);
    assert_eq!(apic.cpu_count(), 2);
    assert_eq!(apic.get_core_id_for_cpu_number(0), Some(4));
    assert_eq!(apic.get_core_id_for_cpu_number(1), Some(7));
    assert_eq!(apic.get_core_id_for_cpu_number(2), None);
}

#[test]
fn local_init_and_acknowledge() {
    let apic = Apic::init(true, vec![0]);
    let mut out = Vec::new();
    apic.init_local_apic(&mut out);
    let expected: Vec<Op> = [
        (0x832, 0x10000),
        (0x833, 0x10000),
        (0x834, 0x10000),
        (0x835, 0x10000),
        (0x836, 0x10000),
        (0x837, 126),
        (0x808, 0),
        (0x80f, 0x17f),
    ]
    .iter()
    .map(|&(m, v)| Op::WriteMsr { msr: m, value: v })
    .collect();
    assert_eq!(out, expected);
    let mut eoi = Vec::new();
    apic.eoi(&mut eoi);
    assert_eq!(eoi, vec![Op::WriteMsr { msr: 0x80b, value: 0 }]);
}

#[test]
fn boot_code_gets_page_table_root() {
    let code = vec![0xeau8; 16];
    let patched = prepare_boot_code(&code, 0x1_1234_5678).unwrap();
    assert_eq!(&patched[..4], &[0xea; 4]);
    assert_eq!(&patched[4..8], &[0x78, 0x56, 0x34, 0x12]);
    assert_eq!(&patched[8..], &[0xea; 8]);
}

#[test]
fn boot_code_size_limits() {
    assert_eq!(prepare_boot_code(&vec![0u8; 4096], 0), Err(BootCodeError::TooLarge));
    assert_eq!(prepare_boot_code(&vec![0u8; 7], 0), Err(BootCodeError::TooShort));
    assert!(prepare_boot_code(&vec![0u8; 4095], 0).is_ok());
}

#[test]
fn handler_steps_per_vector() {
    assert_eq!(
        handler_steps(112),
        vec![HandlerStep::ReloadTranslationRoot, HandlerStep::Acknowledge]
    );
    assert_eq!(
        handler_steps(126),
        vec![
            HandlerStep::ReportErrorStatus,
            HandlerStep::ReportFrame,
            HandlerStep::Acknowledge,
            HandlerStep::Abort
        ]
    );
    assert_eq!(handler_steps(127), vec![HandlerStep::ReportFrame, HandlerStep::Abort]);
    assert_eq!(handler_steps(121), vec![HandlerStep::Acknowledge]);
    assert!(handler_steps(32).is_empty());
}
