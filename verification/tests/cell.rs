use bip::{Guard, Layout, Owned, RawCell};

#[test]
fn an_aligned_address_makes_a_cell() {
    let cell = Owned::at(0x1000, 7u32).unwrap();
    assert_eq!(cell.addr(), 0x1000);
    assert_eq!(*cell.value(), 7);
    assert_eq!(cell.raw(), RawCell { addr: 0x1000, layout: Layout::of::<u32>() });
    assert_eq!(cell.into_parts(), (0x1000, 7));
}

#[test]
fn a_misaligned_address_hands_the_value_back() {
    assert_eq!(Owned::at(0x1002, 7u32), Err(7));
    assert_eq!(Owned::at(0x1001, 7u16), Err(7));
    assert_eq!(Owned::at(0x1001u64 as usize, 7u64), Err(7));
    assert!(Owned::at(0x1001, 7u8).is_ok());
    assert!(Owned::at(0x1004, 7u32).is_ok());
    assert!(Owned::at(0, 7u64).is_ok());
}

#[test]
fn every_address_is_aligned_for_bytes() {
    for addr in [0usize, 1, 2, 3, 0xfff, usize::MAX] {
        let cell = Owned::at(addr, [1u8, 2, 3]).unwrap();
        assert_eq!(cell.addr(), addr);
        assert_eq!(cell.raw().layout, Layout { size: 3, align: 1 });
    }
}

#[test]
fn an_armed_guard_fires_once() {
    let cell = Owned::at(0x2000, 1u64).unwrap();
    let mut guard = Guard::arm(&cell);
    assert!(guard.is_armed());
    assert_eq!(guard.fire(), Some(RawCell { addr: 0x2000, layout: Layout::of::<u64>() }));
    assert!(!guard.is_armed());
    assert_eq!(guard.fire(), None);
    assert_eq!(guard.fire(), None);
}

#[test]
fn a_disarmed_guard_frees_nothing() {
    let cell = Owned::at(0x2000, 1u64).unwrap();
    let mut guard = Guard::arm(&cell);
    guard.disarm();
    assert!(!guard.is_armed());
    assert_eq!(guard.fire(), None);
    guard.disarm();
    assert_eq!(guard.fire(), None);
}

#[test]
fn the_guard_keeps_the_layout_it_was_armed_with() {
    let cell = Owned::at(0x2000, 1u64).unwrap();
    let mut guard = Guard::arm(&cell);
    let bytes = bip::map_in_place(cell, |n| n.to_ne_bytes()).unwrap();
    assert_eq!(bytes.raw().layout, Layout { size: 8, align: 1 });
    assert_eq!(guard.fire(), Some(RawCell { addr: 0x2000, layout: Layout::of::<u64>() }));
}

#[test]
fn a_guard_for_an_empty_cell_owes_an_empty_layout() {
    let cell = Owned::at(0x1, ()).unwrap();
    let mut guard = Guard::arm(&cell);
    assert_eq!(
        guard.fire(),
        Some(RawCell { addr: 0x1, layout: Layout { size: 0, align: 1 } })
    );
}
