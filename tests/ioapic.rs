use librs_apic::ioapic::{
    init_ioapic, ioapic_intoff, ioapic_inton, ioapic_max_redirection_entry, ioapic_read,
    ioapic_version, ioapic_write, OutOfRange,
};
use librs_apic::registers::Op;

fn store(offset: u32, value: u32) -> Op {
    Op::IoApicStore { offset, value }
}

#[test]
fn route_on_five_to_two() {
    let mut out = Vec::new();
    assert_eq!(ioapic_inton(5, 2, &mut out), Ok(()));
    assert_eq!(
        out,
        vec![store(0, 0x1a), store(0x10, 0x25), store(0, 0x1b), store(0x10, 0x0200_0000)]
    );
}

#[test]
fn route_off_five_to_two_sets_mask() {
    let mut out = Vec::new();
    assert_eq!(ioapic_intoff(5, 2, &mut out), Ok(()));
    assert_eq!(
        out,
        vec![store(0, 0x1a), store(0x10, 0x10025), store(0, 0x1b), store(0x10, 0x0200_0000)]
    );
}

#[test]
fn route_ceiling_is_twenty_four() {
    let mut out = Vec::new();
    assert_eq!(ioapic_inton(24, 0, &mut out), Ok(()));
    assert_eq!(out[1], store(0x10, 0x38));
    let mut none = Vec::new();
    assert_eq!(ioapic_inton(25, 0, &mut none), Err(OutOfRange { irq: 25 }));
    assert_eq!(ioapic_intoff(200, 0, &mut none), Err(OutOfRange { irq: 200 }));
    assert!(none.is_empty());
}

#[test]
fn index_then_data() {
    let mut out = Vec::new();
    ioapic_write(0x12, 0xabcd, &mut out);
    assert_eq!(out, vec![store(0, 0x12), store(0x10, 0xabcd)]);
    assert_eq!(ioapic_read(1), store(0, 1));
}

#[test]
fn version_register_fields() {
    assert_eq!(ioapic_version(0x0017_0011), 0x11);
    assert_eq!(ioapic_max_redirection_entry(0x0017_0011), 23);
    assert_eq!(ioapic_max_redirection_entry(0xff_ff_ff_ff), 0xff);
}

#[test]
fn initial_routing_masks_line_two() {
    let mut out = Vec::new();
    init_ioapic(23, &mut out);
    assert_eq!(out.len(), 24 * 4);
    assert_eq!(out[1], store(0x10, 0x20));
    assert_eq!(out[2 * 4], store(0, 0x14));
    assert_eq!(out[2 * 4 + 1], store(0x10, 0x10022));
    assert_eq!(out[3 * 4 + 1], store(0x10, 0x23));
    assert_eq!(out[23 * 4 + 3], store(0x10, 0));
}

#[test]
fn initial_routing_skips_lines_above_ceiling() {
    let mut out = Vec::new();
    init_ioapic(40, &mut out);
    assert_eq!(out.len(), 25 * 4);
    let mut all = Vec::new();
    init_ioapic(255, &mut all);
    assert_eq!(all, out);
}
