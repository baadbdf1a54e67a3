//! The MiniUART serial driver.
//!
//! The auxiliary UART block sits behind an enable bit that gates access to
//! every other register.  Initialization follows a fixed order: configure
//! the transmit and receive pins through the GPIO driver, enable the
//! peripheral, hold both lines off while programming the baud counter,
//! framing and interrupt enables, then turn the lines back on and publish
//! the driver as the system console.
//!
//! The block also exposes an interrupt-status word (`irq`), an
//! interrupt-identification word (`iir`) and a line-status word (`stat`)
//! whose bits callers may consult; this driver never reads or writes them,
//! so it models only the registers its operations touch.

use crate::console::{Console, ConsoleId, SystemConsole};
use crate::device::DriverDescriptor;
use crate::device::{DeviceDriver, DriverId, InitPhase};
use crate::gpio::{fn_code, pull_code, spec_set_function, spec_set_pull, GpioView, PinFnSpec, PinPullSpec, GPIO};
use crate::mmio::MemMap;
use crate::regs::{reg_val, Reg32};
use vstd::prelude::*;

verus! {

/// The transmit pin, multiplexed to the MiniUART by alternate function 5.
pub const TX_PIN: usize = 14;

/// The receive pin, multiplexed to the MiniUART by alternate function 5.
pub const RX_PIN: usize = 15;

/// The peripheral-enable bit of the `en` register; it must be set before
/// any other register of the block may be touched.
pub const ENABLE_UART: u32 = 1;

/// `cntl` contents with both the receive (bit 0) and transmit (bit 1)
/// lines disabled.
pub const CNTL_LINES_OFF: u32 = 0;

/// `cntl` contents with both the receive (bit 0) and transmit (bit 1)
/// lines enabled.
pub const CNTL_LINES_ON: u32 = 3;

/// `lcr` contents selecting 8-bit character framing.
pub const LCR_DATA_SIZE_EIGHT: u32 = 1;

/// `ier` contents with both the transmit-ready (bit 0) and receive-ready
/// (bit 1) interrupts enabled at the controller.  This documents hardware
/// readiness only; the driver polls and no interrupt handler exists.
pub const IER_TX_RX: u32 = 3;

/// Baud counter for the 115200 bps target at the nominal default 250 MHz
/// core clock, from `baud = clock / (8 * (counter + 1))`; the error rate at
/// this counter is within the acceptable threshold.
pub const BAUD_COUNTER_115200: u32 = 270;

/// The registers this driver reads and writes.
struct Registers {
    en: Reg32,
    io: Reg32,
    ier: Reg32,
    lcr: Reg32,
    cntl: Reg32,
    baud: Reg32,
}

/// The abstract contents of the MiniUART block's modeled registers.
#[verifier::ext_equal]
pub struct UartView {
    /// The peripheral-enable register.
    pub en: u32,
    /// The data register: the byte most recently written or received.
    pub io: u32,
    /// The interrupt-enable register.
    pub ier: u32,
    /// The line-control (framing) register.
    pub lcr: u32,
    /// The line-enable control register.
    pub cntl: u32,
    /// The baud-rate counter register.
    pub baud: u32,
}

/// What the register-programming sequence of `init` leaves in the block:
/// peripheral enabled, both lines on, 8-bit framing, both controller
/// interrupts enabled, the 115200 bps counter programmed, and the data
/// register untouched.
pub open spec fn spec_uart_init(v: UartView) -> UartView {
    UartView {
        en: ENABLE_UART as u32,
        io: v.io,
        ier: IER_TX_RX as u32,
        lcr: LCR_DATA_SIZE_EIGHT as u32,
        cntl: CNTL_LINES_ON as u32,
        baud: BAUD_COUNTER_115200 as u32,
    }
}

/// What writing one byte leaves in the block: the data register holds the
/// byte, everything else keeps its contents.
pub open spec fn spec_write_byte(v: UartView, byte: u8) -> UartView {
    UartView { io: byte as u32, ..v }
}

/// What writing a sequence of characters leaves in the block: each
/// character's low byte passes through the data register in order, so the
/// block ends up holding the last one.
pub open spec fn spec_write_chars(v: UartView, cs: Seq<char>) -> UartView
    decreases cs.len(),
{
    if cs.len() == 0 {
        v
    } else {
        spec_write_byte(spec_write_chars(v, cs.drop_last()), cs.last() as u8)
    }
}

/// What the UART's pin configuration leaves in the GPIO block: transmit
/// and receive pins on alternate function 5 with pull-down, in that order.
pub open spec fn spec_uart_pins(g: GpioView) -> GpioView {
    let alt = fn_code(PinFnSpec::Alt5);
    let down = pull_code(PinPullSpec::Down);
    let tx_done = spec_set_pull(spec_set_function(g, TX_PIN as int, alt), TX_PIN as int, down);
    spec_set_pull(spec_set_function(tx_done, RX_PIN as int, alt), RX_PIN as int, down)
}

/// The MiniUART driver: a typed map naming the peripheral block's physical
/// address, and the block's register state.
pub struct UART1 {
    map: MemMap<Registers>,
    regs: Registers,
}

impl View for UART1 {
    type V = UartView;

    closed spec fn view(&self) -> UartView {
        UartView {
            en: reg_val(self.regs.en),
            io: reg_val(self.regs.io),
            ier: reg_val(self.regs.ier),
            lcr: reg_val(self.regs.lcr),
            cntl: reg_val(self.regs.cntl),
            baud: reg_val(self.regs.baud),
        }
    }
}

impl UART1 {
    /// The translated base address the driver's register map names.
    pub closed spec fn base(self) -> u64 {
        self.map.base()
    }

    /// Builds the driver on the MiniUART block's documented base address,
    /// with every modeled register starting out clear.
    pub fn new() -> (r: Self)
        ensures
            r.base() == crate::mmio::spec_translate(
                crate::mmio::PeripheralMode::Low,
                crate::mmio::current_mode(),
                0x7e21_5000,
            ),
            r@ == (UartView { en: 0, io: 0, ier: 0, lcr: 0, cntl: 0, baud: 0 }),
    {
        let r = UART1 {
            map: MemMap::new(0x7e21_5000),
            regs: Registers {
                en: Reg32::new(0),
                io: Reg32::new(0),
                ier: Reg32::new(0),
                lcr: Reg32::new(0),
                cntl: Reg32::new(0),
                baud: Reg32::new(0),
            },
        };
        proof {
            assert(r@ =~= (UartView { en: 0, io: 0, ier: 0, lcr: 0, cntl: 0, baud: 0 }));
        }
        r
    }

    /// Reads the data register: one register access, no blocking on status
    /// bits; callers are expected to consult the line status themselves.
    pub fn read_byte(&self) -> (b: u8)
        ensures
            b == self@.io as u8,
    {
        self.regs.io.get() as u8
    }

    /// The translated base address of the MiniUART block.
    pub fn base_addr(&self) -> (a: u64)
        ensures
            a == self.base(),
    {
        self.map.base_addr()
    }

    /// The current contents of the peripheral-enable register.
    pub fn en_value(&self) -> (v: u32)
        ensures
            v == self@.en,
    {
        self.regs.en.get()
    }

    /// The current contents of the interrupt-enable register.
    pub fn ier_value(&self) -> (v: u32)
        ensures
            v == self@.ier,
    {
        self.regs.ier.get()
    }

    /// The current contents of the line-control register.
    pub fn lcr_value(&self) -> (v: u32)
        ensures
            v == self@.lcr,
    {
        self.regs.lcr.get()
    }

    /// The current contents of the line-enable control register.
    pub fn cntl_value(&self) -> (v: u32)
        ensures
            v == self@.cntl,
    {
        self.regs.cntl.get()
    }

    /// The current contents of the baud-rate counter register.
    pub fn baud_value(&self) -> (v: u32)
        ensures
            v == self@.baud,
    {
        self.regs.baud.get()
    }

    /// Writes one byte to the data register: one register access, no
    /// blocking on status bits.
    pub fn write_byte(&mut self, byte: u8)
        ensures
            final(self)@ == spec_write_byte(old(self)@, byte),
    {
        self.regs.io.set(byte as u32);
        proof {
            assert(self@ =~= spec_write_byte(old(self)@, byte));
        }
    }
}

impl DriverDescriptor for UART1 {
    /// Programs the block's registers, in the order the hardware requires:
    /// enable the peripheral (nothing else is reachable before that), turn
    /// both lines off so live traffic cannot disturb configuration, program
    /// the baud counter, select 8-bit framing, enable both controller
    /// interrupts, then turn the lines back on.  The registers are blind at
    /// this level — no hardware failure is observable — so the result
    /// exists only to fit the uniform driver contract and is always
    /// success.
    fn init(&mut self) -> (r: Result<(), &'static str>)
        ensures
            r.is_ok(),
            final(self)@ == spec_uart_init(old(self)@),
    {
        self.regs.en.set(ENABLE_UART);
        self.regs.cntl.set(CNTL_LINES_OFF);
        self.regs.baud.set(BAUD_COUNTER_115200);
        self.regs.lcr.set(LCR_DATA_SIZE_EIGHT);
        self.regs.ier.set(IER_TX_RX);
        self.regs.cntl.set(CNTL_LINES_ON);
        proof {
            assert(self@ =~= spec_uart_init(old(self)@));
        }
        Ok(())
    }
}

impl Console for UART1 {
    /// Ships `s` one character at a time through the data register.
    fn write_str(&mut self, s: &str) -> (r: Result<(), &'static str>)
        ensures
            r.is_ok(),
            final(self)@ == spec_write_chars(old(self)@, s@),
    {
        let n = s.unicode_len();
        for i in 0..n
            invariant
                n == s@.len(),
                self@ == spec_write_chars(old(self)@, s@.take(i as int)),
        {
            let c = s.get_char(i);
            self.write_byte(c as u8);
            proof {
                assert(s@.take(i + 1).drop_last() =~= s@.take(i as int));
                assert(s@.take(i + 1).last() == s@[i as int]);
            }
        }
        proof {
            assert(s@.take(n as int) =~= s@);
        }
        Ok(())
    }

    /// Reads one raw byte from the data register.
    fn read_char(&self) -> (b: u8)
        ensures
            b == self@.io as u8,
    {
        self.read_byte()
    }
}

/// Full `Protocol`-phase bring-up of the MiniUART.  The driver depends on
/// the GPIO driver — the transmit and receive pins must be multiplexed to
/// it first — so the sequence runs: pin configuration, then the driver's
/// own register programming, then publication of the driver as the system
/// console.
pub fn init_device(gpio: &mut GPIO, uart: &mut UART1, console: &mut SystemConsole) -> (r: Result<
    (),
    &'static str,
>)
    requires
        old(gpio)@.wf(),
    ensures
        r.is_ok(),
        final(gpio)@ == spec_uart_pins(old(gpio)@),
        final(gpio)@.wf(),
        final(uart)@ == spec_uart_init(old(uart)@),
        final(console)@ == ConsoleId::Uart,
{
    gpio.set_function(TX_PIN, PinFnSpec::Alt5);
    gpio.set_pull(TX_PIN, PinPullSpec::Down);
    gpio.set_function(RX_PIN, PinFnSpec::Alt5);
    gpio.set_pull(RX_PIN, PinPullSpec::Down);
    let r = uart.init();
    match r {
        Ok(_) => (),
        Err(_) => vstd::pervasive::unreached(),
    }
    console.register(ConsoleId::Uart);
    Ok(())
}

/// The registry record for the MiniUART driver: it initializes in the
/// `Protocol` phase.
pub fn build() -> (d: DeviceDriver)
    ensures
        d.descriptor == DriverId::Uart,
        d.phase == InitPhase::Protocol,
        d.description@ == "BCM2711 MiniUART"@,
{
    DeviceDriver {
        description: "BCM2711 MiniUART",
        descriptor: DriverId::Uart,
        phase: InitPhase::Protocol,
    }
}

} // verus!
