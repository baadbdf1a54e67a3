//! Static singleton cells for the pre-allocator, pre-threading boot phase.
//!
//! Some kernel structures exist exactly once for the whole process lifetime
//! and are reached from a single core with interrupts disabled or not yet
//! enabled.  [`SafeStaticData`] is the holder for such a value: it applies
//! no runtime lock, relying entirely on that external single-core,
//! no-reentrancy invariant, which the surrounding execution environment —
//! not this type — must guarantee.

use vstd::prelude::*;

verus! {

/// A holder of a `T` meant to live for the whole process, accessed only
/// from one core during boot.  Access to the value is plain field access;
/// no synchronization is applied.
pub struct SafeStaticData<T> {
    /// The held value.
    pub data: T,
}

impl<T> SafeStaticData<T> {
    /// Wraps `inner`.
    pub fn new(inner: T) -> (r: Self)
        ensures
            r.data == inner,
    {
        SafeStaticData { data: inner }
    }

    /// Borrows the held value.
    pub fn inner(&self) -> (r: &T)
        ensures
            *r == self.data,
    {
        &self.data
    }

    /// Replaces the held value.
    pub fn set_inner(&mut self, inner: T)
        ensures
            final(self).data == inner,
    {
        self.data = inner;
    }
}

} // verus!
