//! Bring-up core of a bare-metal kernel for a memory-mapped SoC peripheral
//! set: address-mode translation for MMIO blocks, a phased driver
//! registration and initialization protocol, a pluggable console
//! indirection, and the GPIO and MiniUART leaf drivers.

pub mod console;
pub mod device;
pub mod gpio;
pub mod kernel;
pub mod mmio;
pub mod regs;
pub mod sync;
pub mod uart;
