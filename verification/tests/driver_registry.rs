//! Driver registration order and phased initialization.

use soc_bringup::console::ConsoleId;
use soc_bringup::device::{DriverId, DriversManager, InitPhase, NUM_DRIVERS};
use soc_bringup::kernel::{devices_build, Board};
use soc_bringup::{gpio, uart};

#[test]
fn register_up_to_capacity_preserves_order() {
    let mut manager = DriversManager::instance();
    assert_eq!(manager.num_registered(), 0);
    manager.register_driver(gpio::build());
    manager.register_driver(uart::build());
    assert_eq!(manager.num_registered(), NUM_DRIVERS);
    let first = manager.driver_at(0);
    assert_eq!(first.description, "BCM2711 GPIO");
    assert_eq!(first.descriptor, DriverId::Gpio);
    assert_eq!(first.phase, InitPhase::Hardware);
    let second = manager.driver_at(1);
    assert_eq!(second.description, "BCM2711 MiniUART");
    assert_eq!(second.descriptor, DriverId::Uart);
    assert_eq!(second.phase, InitPhase::Protocol);
}

#[test]
fn hardware_phase_does_not_touch_protocol_drivers() {
    let mut board = Board::new();
    devices_build(&mut board.manager);
    board
        .manager
        .init_drivers(&mut board.peripherals, &mut board.console, Some(InitPhase::Hardware));
    // The UART initializes in the Protocol phase: its block is untouched
    // and the console still discards.
    assert_eq!(board.peripherals.uart.en_value(), 0);
    assert_eq!(board.peripherals.uart.baud_value(), 0);
    assert_eq!(board.peripherals.gpio.fsel_value(1), 0);
    assert_eq!(board.console.active(), ConsoleId::Dummy);
}

#[test]
fn protocol_phase_after_hardware_phase_initializes_the_rest() {
    let mut board = Board::new();
    devices_build(&mut board.manager);
    board
        .manager
        .init_drivers(&mut board.peripherals, &mut board.console, Some(InitPhase::Hardware));
    board
        .manager
        .init_drivers(&mut board.peripherals, &mut board.console, Some(InitPhase::Protocol));
    assert_eq!(board.peripherals.uart.en_value(), 1);
    assert_eq!(board.peripherals.uart.cntl_value(), 3);
    assert_eq!(board.peripherals.uart.baud_value(), 270);
    assert_eq!(board.console.active(), ConsoleId::Uart);
    // The UART's pins were configured through the GPIO driver.
    assert_eq!(board.peripherals.gpio.fsel_value(1), (2 << 12) | (2 << 15));
}

#[test]
fn empty_registry_initializes_nothing() {
    let mut board = Board::new();
    board
        .manager
        .init_drivers(&mut board.peripherals, &mut board.console, None);
    assert_eq!(board.peripherals.uart.en_value(), 0);
    assert_eq!(board.console.active(), ConsoleId::Dummy);
    board
        .manager
        .init_drivers(&mut board.peripherals, &mut board.console, Some(InitPhase::Protocol));
    assert_eq!(board.peripherals.uart.en_value(), 0);
    assert_eq!(board.console.active(), ConsoleId::Dummy);
}
