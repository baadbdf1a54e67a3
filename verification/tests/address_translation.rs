//! Address-mode translation on concrete addresses.

use soc_bringup::mmio::{MemMap, PeripheralMode};

#[test]
fn same_mode_translation_is_identity() {
    assert_eq!(
        MemMap::<u32>::addr_translate(PeripheralMode::Legacy, 0x7e20_0000),
        0x7e20_0000
    );
    assert_eq!(MemMap::<u32>::addr_translate(PeripheralMode::Legacy, 0), 0);
}

#[test]
fn legacy_to_low_adds_fixed_offset() {
    assert_eq!(
        MemMap::<u32>::addr_translate(PeripheralMode::Low, 0x7e20_0000),
        0xfe20_0000
    );
    assert_eq!(
        MemMap::<u32>::addr_translate(PeripheralMode::Low, 0x7e21_5000),
        0xfe21_5000
    );
}

#[test]
fn legacy_to_full_subtracts_fixed_offset() {
    assert_eq!(
        MemMap::<u32>::addr_translate(PeripheralMode::Full, 0x4_7e20_0000),
        0x7e20_0000
    );
}

#[test]
fn new_map_stores_low_mode_address() {
    let map = MemMap::<u32>::new(0x7e20_0000);
    assert_eq!(map.base_addr(), 0xfe20_0000);
    let map = MemMap::<u64>::new(0x7e21_5000);
    assert_eq!(map.base_addr(), 0xfe21_5000);
}

#[test]
fn drivers_sit_on_translated_block_addresses() {
    let gpio = soc_bringup::gpio::device();
    assert_eq!(gpio.base_addr(), 0xfe20_0000);
    let uart = soc_bringup::uart::UART1::new();
    assert_eq!(uart.base_addr(), 0xfe21_5000);
}
