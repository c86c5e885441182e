use librs_apic::registers::{
    icr_delivery_pending, init_x2apic, local_apic_read, local_apic_write, select_mode,
    translate_x2apic_msr_to_xapic_address, ControllerMode, Op, ReadLocation, IA32_APIC_BASE,
    IA32_X2APIC_EOI, IA32_X2APIC_ESR, IA32_X2APIC_ICR,
};

#[test]
fn register_file_write_is_one_msr_write() {
    let mut out = Vec::new();
    local_apic_write(ControllerMode::RegisterFile, IA32_X2APIC_EOI, 0, &mut out);
    assert_eq!(out, vec![Op::WriteMsr { msr: 0x80b, value: 0 }]);
}

#[test]
fn mapped_write_translates_offset() {
    let mut out = Vec::new();
    local_apic_write(ControllerMode::MemoryMapped, IA32_X2APIC_EOI, 0x1_0000_0007, &mut out);
    assert_eq!(out, vec![Op::LapicStore { offset: 0xb0, value: 7 }]);
}

#[test]
fn mapped_command_write_splits_and_waits() {
    let mut out = Vec::new();
    let value: u64 = (2u64 << 32) | 0x4000 | 112;
    local_apic_write(ControllerMode::MemoryMapped, IA32_X2APIC_ICR, value, &mut out);
    assert_eq!(
        out,
        vec![
            Op::LapicStore { offset: 0x310, value: 0x0200_0000 },
            Op::LapicStore { offset: 0x300, value: 0x4070 },
            Op::LapicAwaitIdle { offset: 0x300 },
        ]
    );
}

#[test]
fn register_file_command_write_never_waits() {
    let mut out = Vec::new();
    let value: u64 = (2u64 << 32) | 0x4000 | 112;
    local_apic_write(ControllerMode::RegisterFile, IA32_X2APIC_ICR, value, &mut out);
    assert_eq!(out, vec![Op::WriteMsr { msr: 0x830, value }]);
    assert!(!out.iter().any(|op| matches!(op, Op::LapicAwaitIdle { .. })));
}

#[test]
fn translation_keeps_low_byte_only() {
    assert_eq!(translate_x2apic_msr_to_xapic_address(0x830), 0x300);
    assert_eq!(translate_x2apic_msr_to_xapic_address(0x80f), 0xf0);
    assert_eq!(translate_x2apic_msr_to_xapic_address(0x83e), 0x3e0);
}

#[test]
fn read_location_follows_mode() {
    assert_eq!(
        local_apic_read(ControllerMode::RegisterFile, IA32_X2APIC_ESR),
        ReadLocation::Msr { msr: 0x828 }
    );
    assert_eq!(
        local_apic_read(ControllerMode::MemoryMapped, IA32_X2APIC_ESR),
        ReadLocation::Lapic { offset: 0x280 }
    );
}

#[test]
fn delivery_status_bit() {
    assert!(icr_delivery_pending(0x1000));
    assert!(icr_delivery_pending(0x1070));
    assert!(!icr_delivery_pending(0x0070));
}

#[test]
fn mode_selection() {
    assert_eq!(select_mode(true), ControllerMode::RegisterFile);
    assert_eq!(select_mode(false), ControllerMode::MemoryMapped);
}

#[test]
fn x2apic_enable_sets_bit_ten() {
    let mut out = Vec::new();
    init_x2apic(true, 0xfee0_0900, &mut out);
    assert_eq!(out, vec![Op::WriteMsr { msr: IA32_APIC_BASE, value: 0xfee0_0d00 }]);
    let mut none = Vec::new();
    init_x2apic(false, 0xfee0_0900, &mut none);
    assert!(none.is_empty());
}
