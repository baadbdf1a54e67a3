//! The GPIO pin-configuration driver.
//!
//! The GPIO block packs the configuration of every pin into shared
//! registers: the function selectors hold ten 3-bit fields per register
//! across `fsel0..fsel5`, and the pull controls hold sixteen 2-bit fields
//! per register across `pull_cntrl0..pull_cntrl3`.  Each operation is a
//! read-modify-write that replaces exactly the target pin's field and
//! leaves every other pin's bits unchanged — the central correctness
//! property of the register math, proved here as
//! [`lemma_set_function_frame`] and [`lemma_set_pull_frame`].
//!
//! The hardware block also exposes set/clear, level, and edge/level-detect
//! registers (`set*`, `clr*`, `lev*`, `eds*`, `ren*`, `fen*`, `hen*`,
//! `len*`, `aren*`, `afen*`); this driver never touches them, so it models
//! only the registers its operations read and write.

use crate::device::DriverDescriptor;
use crate::device::{DeviceDriver, DriverId, InitPhase};
use crate::mmio::MemMap;
use crate::regs::{field_set, reg_val, Reg32};
use vstd::arithmetic::div_mod::lemma_fundamental_div_mod;
use vstd::prelude::*;

verus! {

/// The number of pins the block supports; valid pins are `0..MAX_PINS`.
pub const MAX_PINS: usize = 58;

/// The function a pin is multiplexed to: plain input or output, or one of
/// the six alternate roles.  The declaration order matches the 3-bit
/// hardware encoding of the function-select field.
pub enum PinFnSpec {
    /// The pin reads its level.
    Input,
    /// The pin drives its level.
    Output,
    /// Alternate function 5.
    Alt5,
    /// Alternate function 4.
    Alt4,
    /// Alternate function 0.
    Alt0,
    /// Alternate function 1.
    Alt1,
    /// Alternate function 2.
    Alt2,
    /// Alternate function 3.
    Alt3,
}

/// The 3-bit hardware encoding of a pin function.
pub open spec fn fn_code(alt: PinFnSpec) -> u32 {
    match alt {
        PinFnSpec::Input => 0,
        PinFnSpec::Output => 1,
        PinFnSpec::Alt5 => 2,
        PinFnSpec::Alt4 => 3,
        PinFnSpec::Alt0 => 4,
        PinFnSpec::Alt1 => 5,
        PinFnSpec::Alt2 => 6,
        PinFnSpec::Alt3 => 7,
    }
}

impl PinFnSpec {
    /// The 3-bit hardware encoding of this function.
    pub fn code(&self) -> (c: u32)
        ensures
            c == fn_code(*self),
    {
        match self {
            PinFnSpec::Input => 0,
            PinFnSpec::Output => 1,
            PinFnSpec::Alt5 => 2,
            PinFnSpec::Alt4 => 3,
            PinFnSpec::Alt0 => 4,
            PinFnSpec::Alt1 => 5,
            PinFnSpec::Alt2 => 6,
            PinFnSpec::Alt3 => 7,
        }
    }
}

/// A pin's idle-state bias resistor configuration.  The declaration order
/// matches the 2-bit hardware encoding of the pull-control field.
pub enum PinPullSpec {
    /// No bias resistor.
    NoPull,
    /// Pull-up resistor.
    Up,
    /// Pull-down resistor.
    Down,
}

/// The 2-bit hardware encoding of a pull configuration.
pub open spec fn pull_code(pull: PinPullSpec) -> u32 {
    match pull {
        PinPullSpec::NoPull => 0,
        PinPullSpec::Up => 1,
        PinPullSpec::Down => 2,
    }
}

impl PinPullSpec {
    /// The 2-bit hardware encoding of this pull configuration.
    pub fn code(&self) -> (c: u32)
        ensures
            c == pull_code(*self),
    {
        match self {
            PinPullSpec::NoPull => 0,
            PinPullSpec::Up => 1,
            PinPullSpec::Down => 2,
        }
    }
}

/// The registers this driver reads and writes: six function-select words
/// and four pull-control words.
struct Registers {
    fsel0: Reg32,
    fsel1: Reg32,
    fsel2: Reg32,
    fsel3: Reg32,
    fsel4: Reg32,
    fsel5: Reg32,
    pull_cntrl0: Reg32,
    pull_cntrl1: Reg32,
    pull_cntrl2: Reg32,
    pull_cntrl3: Reg32,
}

/// The abstract contents of the GPIO block: the six function-select words
/// and the four pull-control words.
#[verifier::ext_equal]
pub struct GpioView {
    /// Contents of `fsel0..fsel5`, in order.
    pub fsel: Seq<u32>,
    /// Contents of `pull_cntrl0..pull_cntrl3`, in order.
    pub pull: Seq<u32>,
}

impl GpioView {
    /// A view holds exactly the block's registers.
    pub open spec fn wf(self) -> bool {
        &&& self.fsel.len() == 6
        &&& self.pull.len() == 4
    }
}

/// The 3-bit function-select field of `pin`.
pub open spec fn fsel_field(g: GpioView, pin: int) -> u32 {
    (g.fsel[pin / 10] >> ((3 * (pin % 10)) as u32)) & 7
}

/// The 2-bit pull-control field of `pin`.
pub open spec fn pull_field(g: GpioView, pin: int) -> u32 {
    (g.pull[pin / 16] >> ((2 * (pin % 16)) as u32)) & 3
}

/// What `set_function(pin, alt)` leaves in the block: the word holding
/// `pin` gets its 3-bit field replaced with `code`, every other word and
/// all pull controls keep their contents.
pub open spec fn spec_set_function(g: GpioView, pin: int, code: u32) -> GpioView {
    GpioView {
        fsel: g.fsel.update(
            pin / 10,
            field_set(g.fsel[pin / 10], 7, (3 * (pin % 10)) as u32, code),
        ),
        pull: g.pull,
    }
}

/// What `set_pull(pin, pull)` leaves in the block: the word holding `pin`
/// gets its 2-bit field replaced with `code`, every other word and all
/// function selects keep their contents.
pub open spec fn spec_set_pull(g: GpioView, pin: int, code: u32) -> GpioView {
    GpioView {
        fsel: g.fsel,
        pull: g.pull.update(
            pin / 16,
            field_set(g.pull[pin / 16], 3, (2 * (pin % 16)) as u32, code),
        ),
    }
}

/// Replacing one 3-bit field reads back as the new code and leaves any
/// other 3-bit field of the same word untouched.
proof fn lemma_field3(v: u32, c: u32, sp: u32, sq: u32)
    by (bit_vector)
    requires
        sp < 30,
        sq < 30,
        sp % 3 == 0,
        sq % 3 == 0,
        c < 8,
    ensures
        ((field_set(v, 7, sp, c) >> sp) & 7) == c,
        sp != sq ==> ((field_set(v, 7, sp, c) >> sq) & 7) == ((v >> sq) & 7),
{
}

/// Replacing one 2-bit field reads back as the new code and leaves any
/// other 2-bit field of the same word untouched.
proof fn lemma_field2(v: u32, c: u32, sp: u32, sq: u32)
    by (bit_vector)
    requires
        sp < 32,
        sq < 32,
        sp % 2 == 0,
        sq % 2 == 0,
        c < 4,
    ensures
        ((field_set(v, 3, sp, c) >> sp) & 3) == c,
        sp != sq ==> ((field_set(v, 3, sp, c) >> sq) & 3) == ((v >> sq) & 3),
{
}

/// A function-select write modifies only the intended field: afterwards the
/// target pin's field holds the new code, and every other pin's field — in
/// the same word or another — is bit-for-bit unchanged, as is every pull
/// control.
pub proof fn lemma_set_function_frame(g: GpioView, pin: int, code: u32)
    requires
        g.wf(),
        0 <= pin < MAX_PINS,
        code < 8,
    ensures
        fsel_field(spec_set_function(g, pin, code), pin) == code,
        forall|q: int|
            0 <= q < MAX_PINS && q != pin ==> fsel_field(spec_set_function(g, pin, code), q)
                == fsel_field(g, q),
        spec_set_function(g, pin, code).pull == g.pull,
{
    let after = spec_set_function(g, pin, code);
    let sp = (3 * (pin % 10)) as u32;
    lemma_field3(g.fsel[pin / 10], code, sp, sp);
    assert forall|q: int| 0 <= q < MAX_PINS && q != pin implies fsel_field(after, q)
        == fsel_field(g, q) by {
        let sq = (3 * (q % 10)) as u32;
        if q / 10 == pin / 10 {
            lemma_fundamental_div_mod(q, 10);
            lemma_fundamental_div_mod(pin, 10);
            lemma_field3(g.fsel[pin / 10], code, sp, sq);
        }
    }
}

/// A pull-control write modifies only the intended field: afterwards the
/// target pin's field holds the new code, and every other pin's field — in
/// the same word or another — is bit-for-bit unchanged, as is every
/// function select.
pub proof fn lemma_set_pull_frame(g: GpioView, pin: int, code: u32)
    requires
        g.wf(),
        0 <= pin < MAX_PINS,
        code < 4,
    ensures
        pull_field(spec_set_pull(g, pin, code), pin) == code,
        forall|q: int|
            0 <= q < MAX_PINS && q != pin ==> pull_field(spec_set_pull(g, pin, code), q)
                == pull_field(g, q),
        spec_set_pull(g, pin, code).fsel == g.fsel,
{
    let after = spec_set_pull(g, pin, code);
    let sp = (2 * (pin % 16)) as u32;
    lemma_field2(g.pull[pin / 16], code, sp, sp);
    assert forall|q: int| 0 <= q < MAX_PINS && q != pin implies pull_field(after, q)
        == pull_field(g, q) by {
        let sq = (2 * (q % 16)) as u32;
        if q / 16 == pin / 16 {
            lemma_fundamental_div_mod(q, 16);
            lemma_fundamental_div_mod(pin, 16);
            lemma_field2(g.pull[pin / 16], code, sp, sq);
        }
    }
}

/// The GPIO driver: a typed map naming the peripheral block's physical
/// address, and the block's register state.
pub struct GPIO {
    map: MemMap<Registers>,
    regs: Registers,
}

impl View for GPIO {
    type V = GpioView;

    closed spec fn view(&self) -> GpioView {
        GpioView {
            fsel: seq![
                reg_val(self.regs.fsel0),
                reg_val(self.regs.fsel1),
                reg_val(self.regs.fsel2),
                reg_val(self.regs.fsel3),
                reg_val(self.regs.fsel4),
                reg_val(self.regs.fsel5),
            ],
            pull: seq![
                reg_val(self.regs.pull_cntrl0),
                reg_val(self.regs.pull_cntrl1),
                reg_val(self.regs.pull_cntrl2),
                reg_val(self.regs.pull_cntrl3),
            ],
        }
    }
}

impl GPIO {
    /// The translated base address the driver's register map names.
    pub closed spec fn base(self) -> u64 {
        self.map.base()
    }

    /// Builds the driver on the GPIO block's documented base address, with
    /// every modeled register starting out clear.
    pub fn new() -> (r: Self)
        ensures
            r.base() == crate::mmio::spec_translate(
                crate::mmio::PeripheralMode::Low,
                crate::mmio::current_mode(),
                0x7e20_0000,
            ),
            r@.wf(),
            r@.fsel =~= seq![0u32, 0u32, 0u32, 0u32, 0u32, 0u32],
            r@.pull =~= seq![0u32, 0u32, 0u32, 0u32],
    {
        GPIO {
            map: MemMap::new(0x7e20_0000),
            regs: Registers {
                fsel0: Reg32::new(0),
                fsel1: Reg32::new(0),
                fsel2: Reg32::new(0),
                fsel3: Reg32::new(0),
                fsel4: Reg32::new(0),
                fsel5: Reg32::new(0),
                pull_cntrl0: Reg32::new(0),
                pull_cntrl1: Reg32::new(0),
                pull_cntrl2: Reg32::new(0),
                pull_cntrl3: Reg32::new(0),
            },
        }
    }

    /// Multiplexes `pin` to `alt` with a read-modify-write of the 3-bit
    /// field at offset `(pin % 10) * 3` of `fsel(pin / 10)`.  A pin outside
    /// `0..MAX_PINS` is a contract violation: the caller terminates the
    /// process rather than write any register, so it is ruled out here.
    pub fn set_function(&mut self, pin: usize, alt: PinFnSpec)
        requires
            old(self)@.wf(),
            pin < MAX_PINS,
        ensures
            final(self)@ == spec_set_function(old(self)@, pin as int, fn_code(alt)),
            final(self)@.wf(),
    {
        let code = alt.code();
        let shift: u32 = ((pin % 10) * 3) as u32;
        let ghost before = self@;
        match pin / 10 {
            0 => self.regs.fsel0.modify_field(7, shift, code),
            1 => self.regs.fsel1.modify_field(7, shift, code),
            2 => self.regs.fsel2.modify_field(7, shift, code),
            3 => self.regs.fsel3.modify_field(7, shift, code),
            4 => self.regs.fsel4.modify_field(7, shift, code),
            _ => self.regs.fsel5.modify_field(7, shift, code),
        }
        proof {
            assert(self@ =~= spec_set_function(before, pin as int, fn_code(alt)));
        }
    }

    /// Sets `pin`'s bias resistor to `pull` with a read-modify-write of the
    /// 2-bit field at offset `(pin % 16) * 2` of `pull_cntrl(pin / 16)`.
    /// The same pin-range contract as `set_function` applies.
    pub fn set_pull(&mut self, pin: usize, pull: PinPullSpec)
        requires
            old(self)@.wf(),
            pin < MAX_PINS,
        ensures
            final(self)@ == spec_set_pull(old(self)@, pin as int, pull_code(pull)),
            final(self)@.wf(),
    {
        let code = pull.code();
        let shift: u32 = ((pin % 16) * 2) as u32;
        let ghost before = self@;
        match pin / 16 {
            0 => self.regs.pull_cntrl0.modify_field(3, shift, code),
            1 => self.regs.pull_cntrl1.modify_field(3, shift, code),
            2 => self.regs.pull_cntrl2.modify_field(3, shift, code),
            _ => self.regs.pull_cntrl3.modify_field(3, shift, code),
        }
        proof {
            assert(self@ =~= spec_set_pull(before, pin as int, pull_code(pull)));
        }
    }

    /// The translated base address of the GPIO block.
    pub fn base_addr(&self) -> (a: u64)
        ensures
            a == self.base(),
    {
        self.map.base_addr()
    }

    /// The current contents of function-select word `idx`.
    pub fn fsel_value(&self, idx: usize) -> (v: u32)
        requires
            idx < 6,
        ensures
            v == self@.fsel[idx as int],
    {
        match idx {
            0 => self.regs.fsel0.get(),
            1 => self.regs.fsel1.get(),
            2 => self.regs.fsel2.get(),
            3 => self.regs.fsel3.get(),
            4 => self.regs.fsel4.get(),
            _ => self.regs.fsel5.get(),
        }
    }

    /// The current contents of pull-control word `idx`.
    pub fn pull_value(&self, idx: usize) -> (v: u32)
        requires
            idx < 4,
        ensures
            v == self@.pull[idx as int],
    {
        match idx {
            0 => self.regs.pull_cntrl0.get(),
            1 => self.regs.pull_cntrl1.get(),
            2 => self.regs.pull_cntrl2.get(),
            _ => self.regs.pull_cntrl3.get(),
        }
    }
}

impl DriverDescriptor for GPIO {
    /// The block needs no priming: initialization is a no-op and always
    /// succeeds.
    fn init(&mut self) -> (r: Result<(), &'static str>)
        ensures
            r.is_ok(),
            *final(self) == *old(self),
    {
        Ok(())
    }
}

/// The boot-time GPIO driver value.  The kernel constructs exactly one and
/// threads it through the initialization call chain.
pub fn device() -> (r: GPIO)
    ensures
        r@.wf(),
        r@.fsel =~= seq![0u32, 0u32, 0u32, 0u32, 0u32, 0u32],
        r@.pull =~= seq![0u32, 0u32, 0u32, 0u32],
{
    GPIO::new()
}

/// The registry record for the GPIO driver: it initializes in the
/// `Hardware` phase.
pub fn build() -> (d: DeviceDriver)
    ensures
        d.descriptor == DriverId::Gpio,
        d.phase == InitPhase::Hardware,
        d.description@ == "BCM2711 GPIO"@,
{
    DeviceDriver {
        description: "BCM2711 GPIO",
        descriptor: DriverId::Gpio,
        phase: InitPhase::Hardware,
    }
}

} // verus!
