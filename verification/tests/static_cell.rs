//! The static singleton cell.

use soc_bringup::sync::SafeStaticData;

#[test]
fn cell_holds_and_replaces_value() {
    let mut cell = SafeStaticData::new(7u32);
    assert_eq!(*cell.inner(), 7);
    cell.set_inner(42);
    assert_eq!(*cell.inner(), 42);
}

#[test]
fn cell_data_is_directly_reachable() {
    let mut cell = SafeStaticData::new(5u64);
    cell.data = 6;
    assert_eq!(cell.data, 6);
    assert_eq!(*cell.inner(), 6);
}
