//! The boot-time context and the kernel's bring-up sequence.
//!
//! Rather than reach its singletons through ambient global lookup, the
//! kernel constructs one [`Board`] value at the start of boot and threads
//! it by reference through the initialization call chain: the peripheral
//! drivers, the driver registry and the console indirection all live in
//! it, each existing exactly once for the process lifetime.

use crate::console;
use crate::console::{ConsoleId, SystemConsole};
use crate::device::{run_drivers, sys_view, DriversManager, Peripherals};
use crate::gpio;
use crate::uart;
use crate::uart::{spec_uart_init, spec_uart_pins};
use vstd::prelude::*;

verus! {

/// Everything the bring-up sequence owns: the concrete drivers, the
/// console indirection and the driver registry.  Constructed once, at the
/// start of boot, before interrupts are enabled and before any second core
/// runs.
pub struct Board {
    /// The board's peripheral driver instances.
    pub peripherals: Peripherals,
    /// The system console indirection, starting on the discarding
    /// placeholder.
    pub console: SystemConsole,
    /// The driver registry.
    pub manager: DriversManager,
}

impl Board {
    /// Builds the boot context: fresh drivers, the placeholder console
    /// and an empty registry.
    pub fn new() -> (r: Self)
        ensures
            r.peripherals.gpio@.wf(),
            r.peripherals.gpio@.fsel =~= seq![0u32, 0u32, 0u32, 0u32, 0u32, 0u32],
            r.peripherals.gpio@.pull =~= seq![0u32, 0u32, 0u32, 0u32],
            r.peripherals.uart@ == (crate::uart::UartView {
                en: 0,
                io: 0,
                ier: 0,
                lcr: 0,
                cntl: 0,
                baud: 0,
            }),
            r.console@ == ConsoleId::Dummy,
            r.manager@ == Seq::<crate::device::DeviceDriver>::empty(),
    {
        Board {
            peripherals: Peripherals { gpio: gpio::device(), uart: uart::UART1::new() },
            console: console::system(),
            manager: DriversManager::instance(),
        }
    }
}

/// Registers the board's drivers with the registry: the GPIO driver in the
/// `Hardware` phase, then the MiniUART driver in the `Protocol` phase.
pub fn devices_build(manager: &mut DriversManager)
    requires
        old(manager)@.len() == 0,
    ensures
        final(manager)@.len() == 2,
        final(manager)@[0].descriptor == crate::device::DriverId::Gpio,
        final(manager)@[0].phase == crate::device::InitPhase::Hardware,
        final(manager)@[0].description@ == "BCM2711 GPIO"@,
        final(manager)@[1].descriptor == crate::device::DriverId::Uart,
        final(manager)@[1].phase == crate::device::InitPhase::Protocol,
        final(manager)@[1].description@ == "BCM2711 MiniUART"@,
        final(manager).wf(),
    {
    manager.register_driver(gpio::build());
    manager.register_driver(uart::build());
}

/// The kernel's bring-up sequence: register the board's drivers, then run
/// every driver's initialization in registration order.  Afterwards the
/// UART's pins are configured on the GPIO block, the UART block is
/// programmed, and the system console routes to the UART.
pub fn boot(board: &mut Board)
    requires
        old(board).manager@.len() == 0,
        old(board).peripherals.gpio@.wf(),
    ensures
        final(board).manager@.len() == 2,
        final(board).peripherals.gpio@ == spec_uart_pins(old(board).peripherals.gpio@),
        final(board).peripherals.uart@ == spec_uart_init(old(board).peripherals.uart@),
        final(board).console@ == ConsoleId::Uart,
{
    devices_build(&mut board.manager);
    let ghost s0 = sys_view(board.peripherals, board.console);
    let ghost ds = board.manager@;
    board.manager.init_drivers(&mut board.peripherals, &mut board.console, None);
    proof {
        let first = seq![ds[0]];
        assert(first.drop_last() =~= Seq::<crate::device::DeviceDriver>::empty());
        assert(run_drivers(s0, first.drop_last(), None::<crate::device::InitPhase>) == s0);
        assert(run_drivers(s0, first, None::<crate::device::InitPhase>)
            == crate::device::driver_effect(s0, crate::device::DriverId::Gpio));
        assert(ds.drop_last() =~= first);
        assert(run_drivers(s0, ds, None::<crate::device::InitPhase>)
            == crate::device::driver_effect(
            run_drivers(s0, first, None::<crate::device::InitPhase>),
            crate::device::DriverId::Uart,
        ));
    }
}

} // verus!
