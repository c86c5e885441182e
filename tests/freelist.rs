use librs_apic::freelist::{FreeList, FreeListEntry};

fn e(start: usize, end: usize) -> FreeListEntry {
    FreeListEntry { start, end }
}

fn list_of(ranges: &[(usize, usize)]) -> FreeList {
    let mut l = FreeList::new();
    for &(s, t) in ranges {
        l.deallocate(s, t - s);
    }
    l
}

#[test]
fn allocate_first_fit() {
    let mut l = list_of(&[(0x1000, 0x1100), (0x2000, 0x3000)]);
    assert_eq!(l.allocate(0x200), Ok(0x2000));
    assert_eq!(l.entries(), &vec![e(0x1000, 0x1100), e(0x2200, 0x3000)]);
    assert_eq!(l.allocate(0x100), Ok(0x1000));
    assert_eq!(l.entries(), &vec![e(0x2200, 0x3000)]);
    assert_eq!(l.allocate(0x1000), Err(()));
}

#[test]
fn allocate_aligned_carves_block() {
    let mut l = list_of(&[(0x1010, 0x3000)]);
    assert_eq!(l.allocate_aligned(0x100, 0x1000), Ok(0x2000));
    assert_eq!(l.entries(), &vec![e(0x1010, 0x2000), e(0x2100, 0x3000)]);
    assert_eq!(l.allocate_aligned(0x1000, 0x1000), Err(()));
}

#[test]
fn reserve_four_ways() {
    let mut l = list_of(&[(0x0, 0x1000)]);
    assert_eq!(l.reserve(0x0, 0x100), Ok(()));
    assert_eq!(l.entries(), &vec![e(0x100, 0x1000)]);
    assert_eq!(l.reserve(0xf00, 0x100), Ok(()));
    assert_eq!(l.entries(), &vec![e(0x100, 0xf00)]);
    assert_eq!(l.reserve(0x200, 0x100), Ok(()));
    assert_eq!(l.entries(), &vec![e(0x100, 0x200), e(0x300, 0xf00)]);
    assert_eq!(l.reserve(0x100, 0x100), Ok(()));
    assert_eq!(l.entries(), &vec![e(0x300, 0xf00)]);
    assert_eq!(l.reserve(0x200, 0x200), Err(()));
}

#[test]
fn deallocate_extends_or_inserts() {
    let mut l = FreeList::new();
    l.deallocate(0x2000, 0x1000);
    assert_eq!(l.entries(), &vec![e(0x2000, 0x3000)]);
    l.deallocate(0x1800, 0x800);
    assert_eq!(l.entries(), &vec![e(0x1800, 0x3000)]);
    l.deallocate(0x3000, 0x100);
    assert_eq!(l.entries(), &vec![e(0x1800, 0x3100)]);
    l.deallocate(0x0, 0x100);
    assert_eq!(l.entries(), &vec![e(0x0, 0x100), e(0x1800, 0x3100)]);
    l.deallocate(0x5000, 0x100);
    assert_eq!(l.entries(), &vec![e(0x0, 0x100), e(0x1800, 0x3100), e(0x5000, 0x5100)]);
}

#[test]
fn deallocate_reunites_with_next_range() {
    let mut l = FreeList::new();
    l.deallocate(0, 10);
    l.deallocate(20, 10);
    assert_eq!(l.entries(), &vec![e(0, 10), e(20, 30)]);
    l.deallocate(10, 10);
    assert_eq!(l.entries(), &vec![e(0, 30)]);
}

#[test]
fn deallocate_extends_right_without_gap_closing() {
    let mut l = list_of(&[(0, 10), (30, 40)]);
    l.deallocate(10, 10);
    assert_eq!(l.entries(), &vec![e(0, 20), e(30, 40)]);
}
