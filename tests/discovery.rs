use librs_apic::madt::{
    detect, detect_from_acpi, detect_from_uhyve, device_page_mapping, ioapic_mapping, ioapic_mappings,
    local_apic_mapping, DetectError, IoApicRecord, MapRequest, PageFlags,
};
use librs_apic::registers::ControllerMode;

fn header(address: u32) -> Vec<u8> {
    let mut t = address.to_le_bytes().to_vec();
    t.extend_from_slice(&1u32.to_le_bytes());
    t
}

fn processor(t: &mut Vec<u8>, acpi_id: u8, apic_id: u8, flags: u32) {
    t.extend_from_slice(&[0, 8, acpi_id, apic_id]);
    t.extend_from_slice(&flags.to_le_bytes());
}

fn router(t: &mut Vec<u8>, id: u8, address: u32, base: u32) {
    t.extend_from_slice(&[1, 12, id, 0]);
    t.extend_from_slice(&address.to_le_bytes());
    t.extend_from_slice(&base.to_le_bytes());
}

#[test]
fn enabled_processors_in_table_order() {
    let mut t = header(0xfee0_0000);
    processor(&mut t, 0, 0, 1);
    processor(&mut t, 1, 4, 0);
    processor(&mut t, 2, 2, 3);
    processor(&mut t, 3, 2, 1);
    let info = detect_from_acpi(&t).unwrap();
    assert_eq!(info.local_apic_address, 0xfee0_0000);
    assert_eq!(info.cpu_ids, vec![0, 2, 2]);
    assert!(info.ioapics.is_empty());
}

#[test]
fn router_and_unknown_records() {
    let mut t = header(0x1234_5678);
    t.extend_from_slice(&[5, 4, 0xaa, 0xbb]);
    router(&mut t, 9, 0xfec0_0000, 0);
    processor(&mut t, 0, 1, 1);
    t.extend_from_slice(&[2, 2]);
    let info = detect_from_acpi(&t).unwrap();
    assert_eq!(info.local_apic_address, 0x1234_5678);
    assert_eq!(info.cpu_ids, vec![1]);
    assert_eq!(
        info.ioapics,
        vec![IoApicRecord { id: 9, reserved: 0, address: 0xfec0_0000, global_system_interrupt_base: 0 }]
    );
}

#[test]
fn malformed_tables() {
    assert_eq!(detect_from_acpi(&[0u8; 7]).unwrap_err(), DetectError::TooShort);
    let mut short_record = header(0);
    short_record.extend_from_slice(&[0, 6, 0, 0, 1, 0]);
    assert_eq!(detect_from_acpi(&short_record).unwrap_err(), DetectError::MalformedRecord);
    let mut past_end = header(0);
    past_end.extend_from_slice(&[7, 9, 0]);
    assert_eq!(detect_from_acpi(&past_end).unwrap_err(), DetectError::MalformedRecord);
    let mut zero_length = header(0);
    zero_length.extend_from_slice(&[7, 0]);
    assert_eq!(detect_from_acpi(&zero_length).unwrap_err(), DetectError::MalformedRecord);
    let mut lone_byte = header(0);
    lone_byte.push(3);
    assert_eq!(detect_from_acpi(&lone_byte).unwrap_err(), DetectError::MalformedRecord);
}

#[test]
fn empty_table_has_no_processors() {
    let info = detect_from_acpi(&header(0xfee0_0000)).unwrap();
    assert!(info.cpu_ids.is_empty());
}

#[test]
fn hypervisor_fast_path() {
    assert_eq!(detect_from_uhyve(true), Ok(0xFEE0_0000));
    assert_eq!(detect_from_uhyve(false), Err(()));
}

#[test]
fn router_window_mapping() {
    let record = IoApicRecord { id: 0, reserved: 0, address: 0xfec0_0000, global_system_interrupt_base: 0 };
    let device = PageFlags { writable: true, cache_disable: true, execute_disable: true };
    let expected = MapRequest {
        virtual_address: 0x8000_0000,
        physical_address: 0xfec0_0000,
        pages: 1,
        flags: device,
    };
    assert_eq!(ioapic_mapping(&record, 0x8000_0000), expected);
    assert_eq!(ioapic_mappings(&vec![record, record], &vec![0x8000_0000, 0x9000_0000]).len(), 2);
    assert_eq!(device_page_mapping(0x8000_0000, 0xfec0_0000), expected);
}

#[test]
fn local_window_mapped_only_in_mapped_mode() {
    assert_eq!(local_apic_mapping(ControllerMode::RegisterFile, 0xfee0_0000, 0x1000), None);
    let m = local_apic_mapping(ControllerMode::MemoryMapped, 0xfee0_0000, 0x1000).unwrap();
    assert_eq!(m.physical_address, 0xfee0_0000);
    assert_eq!(m.virtual_address, 0x1000);
    assert_eq!(m.pages, 1);
}

#[test]
fn detection_order() {
    let mut t = header(0x1000);
    processor(&mut t, 0, 6, 1);
    let under_hypervisor = detect(true, Some(&t)).unwrap();
    assert_eq!(under_hypervisor.local_apic_address, 0xFEE0_0000);
    assert!(under_hypervisor.cpu_ids.is_empty());
    let native = detect(false, Some(&t)).unwrap();
    assert_eq!(native.local_apic_address, 0x1000);
    assert_eq!(native.cpu_ids, vec![6]);
    assert_eq!(detect(false, None).unwrap_err(), DetectError::NoTable);
}
