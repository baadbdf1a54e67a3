//! End-to-end bring-up: register both drivers, initialize every phase and
//! check the final hardware and console state.

use soc_bringup::console::ConsoleId;
use soc_bringup::kernel::{boot, Board};

#[test]
fn boot_configures_uart_pins_block_and_console() {
    let mut board = Board::new();
    boot(&mut board);
    assert_eq!(board.manager.num_registered(), 2);
    // Pins 14 and 15 sit in fsel1 at offsets 12 and 15, multiplexed to
    // alternate function 5 (0b010), with pull-down (0b10) in pull_cntrl0
    // at offsets 28 and 30.
    assert_eq!(board.peripherals.gpio.fsel_value(1), (2 << 12) | (2 << 15));
    assert_eq!(board.peripherals.gpio.pull_value(0), (2 << 28) | (2 << 30));
    // The UART block: enabled, both lines on, 8-bit framing, both
    // controller interrupts enabled, baud counter programmed.
    assert_eq!(board.peripherals.uart.en_value(), 1);
    assert_eq!(board.peripherals.uart.cntl_value(), 3);
    assert_eq!(board.peripherals.uart.lcr_value(), 1);
    assert_eq!(board.peripherals.uart.ier_value(), 3);
    assert_eq!(board.peripherals.uart.baud_value(), 270);
    // The system console now routes to the UART.
    assert_eq!(board.console.active(), ConsoleId::Uart);
    board.console.print_str(&mut board.peripherals.uart, "ok");
    assert_eq!(board.peripherals.uart.read_byte(), b'k');
}

#[test]
fn baud_counter_satisfies_rate_formula() {
    let mut board = Board::new();
    boot(&mut board);
    // baud = clock / (8 * (counter + 1)) at the documented default
    // 250 MHz core clock, targeting 115200 bps.
    let clock: u64 = 250_000_000;
    let target: u64 = 115_200;
    let expected_counter = clock / (8 * target) - 1;
    assert_eq!(board.peripherals.uart.baud_value() as u64, expected_counter);
    // The achieved rate is within 2% of the target.
    let achieved = clock / (8 * (expected_counter + 1));
    let error = if achieved > target { achieved - target } else { target - achieved };
    assert!(error * 100 / target < 2);
}
