//! Console indirection: writes are discarded before registration and
//! routed to the registered target afterwards.

use soc_bringup::console::{system, ConsoleId};
use soc_bringup::uart::UART1;

#[test]
fn unregistered_console_discards_writes() {
    let console = system();
    let mut uart = UART1::new();
    console.print_str(&mut uart, "boot message");
    // The write is accepted and observably discarded: the UART block is
    // bit-for-bit untouched.
    assert_eq!(uart.read_byte(), 0);
    assert_eq!(uart.en_value(), 0);
}

#[test]
fn registered_console_routes_writes_to_uart() {
    let mut console = system();
    let mut uart = UART1::new();
    console.register(ConsoleId::Uart);
    console.print_str(&mut uart, "hi");
    // Each character passes through the data register; the last one stays.
    assert_eq!(uart.read_byte(), b'i');
}

#[test]
fn empty_write_leaves_data_register() {
    let mut console = system();
    let mut uart = UART1::new();
    uart.write_byte(0x41);
    console.register(ConsoleId::Uart);
    console.print_str(&mut uart, "");
    assert_eq!(uart.read_byte(), 0x41);
}

#[test]
fn unregistered_console_reads_placeholder_byte() {
    let console = system();
    let mut uart = UART1::new();
    uart.write_byte(0x41);
    assert_eq!(console.read_char(&uart), b' ');
}

#[test]
fn registered_console_reads_from_uart() {
    let mut console = system();
    let mut uart = UART1::new();
    uart.write_byte(0x41);
    console.register(ConsoleId::Uart);
    assert_eq!(console.read_char(&uart), 0x41);
}

#[test]
fn uart_round_trips_bytes() {
    let mut uart = UART1::new();
    uart.write_byte(0x5a);
    assert_eq!(uart.read_byte(), 0x5a);
}
