//! The register cells: construction, raw access and masked field writes.

use soc_bringup::regs::Reg32;

#[test]
fn cell_starts_with_given_value() {
    let r = Reg32::new(0xdead_beef);
    assert_eq!(r.get(), 0xdead_beef);
}

#[test]
fn set_replaces_contents() {
    let mut r = Reg32::new(0xffff_ffff);
    r.set(0x1234_5678);
    assert_eq!(r.get(), 0x1234_5678);
}

#[test]
fn modify_field_touches_only_selected_bits() {
    let mut r = Reg32::new(0xffff_ffff);
    // Replace the 3-bit field at offset 12 with 0b010.
    r.modify_field(7, 12, 2);
    assert_eq!(r.get(), (0xffff_ffff & !(7 << 12)) | (2 << 12));
}

#[test]
fn modify_field_masks_the_value() {
    let mut r = Reg32::new(0);
    // Only the low two bits of the value pass the 2-bit mask.
    r.modify_field(3, 4, 0xff);
    assert_eq!(r.get(), 3 << 4);
}
