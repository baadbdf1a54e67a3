//! Address-mode translation for memory-mapped peripheral blocks.
//!
//! The SoC's memory controller can present the peripheral registers under
//! three different addressing conventions.  A driver names its block by the
//! address the reference manual uses and translates it into the convention
//! the kernel currently runs under; the translation between any two modes is
//! a pure additive offset and is reversible.

use core::marker::PhantomData;
use vstd::prelude::*;

verus! {

/// The three addressing conventions under which the memory controller may
/// present the peripheral blocks.
#[derive(Clone, Copy, Debug, PartialEq, Eq, Structural)]
pub enum PeripheralMode {
    /// 32-bit addresses as the peripherals themselves see them.
    Legacy,
    /// Addresses under the VPU's "low peripheral" mode.
    Low,
    /// 35-bit addresses, seen by the large-address peripherals.
    Full,
}

/// What an address known under mode `current` becomes under mode `target`:
/// the full pairwise table.  Same-mode translation is the identity; each
/// cross-mode pair differs by a fixed offset, so every translation is
/// reversible (`lemma_translate_round_trip`).
pub open spec fn spec_translate(target: PeripheralMode, current: PeripheralMode, addr: int) -> int {
    match (target, current) {
        (PeripheralMode::Legacy, PeripheralMode::Low) => addr - 0x8000_0000,
        (PeripheralMode::Legacy, PeripheralMode::Legacy) => addr,
        (PeripheralMode::Legacy, PeripheralMode::Full) => addr + 0x4_0000_0000,
        (PeripheralMode::Low, PeripheralMode::Low) => addr,
        (PeripheralMode::Low, PeripheralMode::Legacy) => addr + 0x8000_0000,
        (PeripheralMode::Low, PeripheralMode::Full) => addr + 0x3_8000_0000,
        (PeripheralMode::Full, PeripheralMode::Low) => addr - 0x3_8000_0000,
        (PeripheralMode::Full, PeripheralMode::Legacy) => addr - 0x4_0000_0000,
        (PeripheralMode::Full, PeripheralMode::Full) => addr,
    }
}

/// The addressing convention the kernel currently runs under.  It is a fixed
/// configuration, not detected at boot.
pub open spec fn current_mode() -> PeripheralMode {
    PeripheralMode::Legacy
}

/// Translation is a bijection per mode pair: mapping an address from `m2`'s
/// view into `m1`'s and back yields the original address.
pub proof fn lemma_translate_round_trip(m1: PeripheralMode, m2: PeripheralMode, a: int)
    ensures
        spec_translate(m2, m1, spec_translate(m1, m2, a)) == a,
{
}

/// Same-mode translation is the identity.
pub proof fn lemma_translate_identity(m: PeripheralMode, a: int)
    ensures
        spec_translate(m, m, a) == a,
{
}

/// A typed view asserting that the register layout `T` sits at a fixed
/// physical address.  Construction translates the address the reference
/// manual names into the kernel's current addressing convention; it cannot
/// fail.  The unchecked act of dereferencing raw memory at that address is
/// not part of this type: it stores and exposes the translated address only.
pub struct MemMap<T> {
    base_addr: u64,
    phantom: PhantomData<T>,
}

impl<T> MemMap<T> {
    /// The translated base address the map was built with.
    pub closed spec fn base(self) -> u64 {
        self.base_addr
    }

    /// Builds a map for the block at `base_addr`, storing that address
    /// translated out of the current mode into the `Low` convention.
    pub fn new(base_addr: u64) -> (r: Self)
        requires
            spec_translate(PeripheralMode::Low, current_mode(), base_addr as int) <= u64::MAX,
        ensures
            r.base() == spec_translate(PeripheralMode::Low, current_mode(), base_addr as int),
    {
        Self {
            base_addr: Self::addr_translate(PeripheralMode::Low, base_addr),
            phantom: PhantomData,
        }
    }

    /// Translates `addr` from the kernel's current addressing convention
    /// into `mode`.  Every one of the nine mode pairs is written out; there
    /// is no fallback case.
    pub fn addr_translate(mode: PeripheralMode, addr: u64) -> (r: u64)
        requires
            0 <= spec_translate(mode, current_mode(), addr as int) <= u64::MAX,
        ensures
            r == spec_translate(mode, current_mode(), addr as int),
    {
        let curr_mode = PeripheralMode::Legacy;

        match mode {
            PeripheralMode::Legacy => match curr_mode {
                PeripheralMode::Low => addr - 0x8000_0000,
                PeripheralMode::Legacy => addr,
                PeripheralMode::Full => addr + 0x4_0000_0000,
            },
            PeripheralMode::Low => match curr_mode {
                PeripheralMode::Low => addr,
                PeripheralMode::Legacy => addr + 0x8000_0000,
                PeripheralMode::Full => addr + 0x3_8000_0000,
            },
            PeripheralMode::Full => match curr_mode {
                PeripheralMode::Low => addr - 0x3_8000_0000,
                PeripheralMode::Legacy => addr - 0x4_0000_0000,
                PeripheralMode::Full => addr,
            },
        }
    }

    /// The stored, already translated base address.
    pub fn base_addr(&self) -> (r: u64)
        ensures
            r == self.base(),
    {
        self.base_addr
    }
}

} // verus!
