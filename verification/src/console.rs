//! The console capability and the system console indirection.
//!
//! A console is anything that accepts text and hands out one raw input byte
//! at a time.  [`SystemConsole`] names the currently active console; it
//! starts on [`DummyConsole`], which silently discards writes, so formatted
//! output works — and vanishes — before any real driver exists.  The first
//! driver able to act as a console (here, the MiniUART) replaces the target
//! once, during its `Protocol`-phase initialization.

use crate::uart::{spec_write_chars, UART1};
use vstd::prelude::*;

verus! {

/// The capability a device driver implements to serve as a console: it
/// accepts a sequence of text and reads one raw byte.
pub trait Console {
    /// Accepts `s`, character by character.
    fn write_str(&mut self, s: &str) -> Result<(), &'static str>;

    /// Reads one raw input byte.
    fn read_char(&self) -> u8;
}

/// The placeholder console active before any driver registers: writes are
/// discarded, reads return a fixed placeholder byte.
pub struct DummyConsole;

impl Console for DummyConsole {
    /// Discards `s` and reports success.
    fn write_str(&mut self, s: &str) -> (r: Result<(), &'static str>)
        ensures
            r.is_ok(),
            *final(self) == *old(self),
    {
        Ok(())
    }

    /// Returns the placeholder byte, a space.
    fn read_char(&self) -> (b: u8)
        ensures
            b == 32,
    {
        32
    }
}

/// Which console is currently active.  The board's set of console-capable
/// drivers is closed, so the indirection names them by tag and dispatches
/// totally over it.
#[derive(Clone, Copy, Debug, PartialEq, Eq, Structural)]
pub enum ConsoleId {
    /// The discarding placeholder.
    Dummy,
    /// The MiniUART driver.
    Uart,
}

/// The system-wide console indirection: all process-wide text output routes
/// through whatever console it currently names.
pub struct SystemConsole {
    console: ConsoleId,
}

impl SystemConsole {
    /// The currently active console.
    pub closed spec fn view(&self) -> ConsoleId {
        self.console
    }

    /// Swaps the active console to `console`.  Intended to be called
    /// exactly once, by the first console-capable driver, during its
    /// `Protocol`-phase initialization.
    pub fn register(&mut self, console: ConsoleId)
        ensures
            final(self)@ == console,
    {
        self.console = console;
    }

    /// The currently active console.
    pub fn active(&self) -> (c: ConsoleId)
        ensures
            c == self@,
    {
        self.console
    }

    /// Routes `s` to the active console.  Before any console is
    /// registered the write is accepted and observably discarded: the UART
    /// is left untouched.  Once the UART is registered, writes reach it and
    /// nothing else.
    pub fn print_str(&self, uart: &mut UART1, s: &str)
        ensures
            self@ == ConsoleId::Dummy ==> *final(uart) == *old(uart),
            self@ == ConsoleId::Uart ==> final(uart)@ == spec_write_chars(old(uart)@, s@),
    {
        match self.console {
            ConsoleId::Dummy => {
                let mut dummy = DummyConsole;
                match dummy.write_str(s) {
                    Ok(_) => (),
                    Err(_) => vstd::pervasive::unreached(),
                }
            },
            ConsoleId::Uart => {
                match uart.write_str(s) {
                    Ok(_) => (),
                    Err(_) => vstd::pervasive::unreached(),
                }
            },
        }
    }

    /// Reads one raw byte from the active console: the placeholder byte
    /// while the dummy is active, the UART's data register once it is.
    pub fn read_char(&self, uart: &UART1) -> (b: u8)
        ensures
            self@ == ConsoleId::Dummy ==> b == 32,
            self@ == ConsoleId::Uart ==> b == uart@.io as u8,
    {
        match self.console {
            ConsoleId::Dummy => {
                let dummy = DummyConsole;
                dummy.read_char()
            },
            ConsoleId::Uart => uart.read_char(),
        }
    }
}

/// The boot-time system console value, starting on the discarding
/// placeholder.  The kernel constructs exactly one and threads it through
/// the initialization call chain.
pub fn system() -> (r: SystemConsole)
    ensures
        r@ == ConsoleId::Dummy,
{
    SystemConsole { console: ConsoleId::Dummy }
}

} // verus!
