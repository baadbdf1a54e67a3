//! The register cells the drivers manipulate, backed by the
//! `tock_registers` crate.
//!
//! A driver's state is a block of 32-bit registers.  The cells themselves —
//! volatile storage with read / write / read-modify-write access — come from
//! `tock_registers`; this module holds that cell type behind [`Reg32`] and
//! gives each operation the drivers use a contract over [`reg_val`], the
//! cell's current contents.  Every operation that changes a cell takes it
//! `&mut`, so the contents Verus tracks through `reg_val` and the contents
//! the cell holds move together.

use tock_registers::fields::FieldValue;
use tock_registers::interfaces::{ReadWriteable, Readable, Writeable};
use tock_registers::registers::InMemoryRegister;
use vstd::prelude::*;

verus! {

/// One 32-bit register cell.  The field is the volatile register cell of
/// `tock_registers`: `InMemoryRegister` backs the cell with ordinary memory
/// and is the one register type of that crate with a public constructor; a
/// hardware overlay would alias the same one-word layout onto a peripheral
/// block instead.
#[verifier::external_body]
pub struct Reg32 {
    cell: InMemoryRegister<u32, ()>,
}

/// The contents a register cell currently holds.
pub uninterp spec fn reg_val(r: Reg32) -> u32;

/// What a masked field write leaves in a register: the bits selected by
/// `mask << shift` are replaced with `value`'s low bits, every other bit
/// keeps its old contents.
pub open spec fn field_set(v: u32, mask: u32, shift: u32, value: u32) -> u32 {
    (v & !(mask << shift)) | ((value & mask) << shift)
}

impl Reg32 {
    /// Relies on `InMemoryRegister::new`: the cell starts out holding
    /// exactly the passed value.
    #[verifier::external_body]
    pub fn new(value: u32) -> (r: Reg32)
        ensures
            reg_val(r) == value,
    {
        Reg32 { cell: InMemoryRegister::new(value) }
    }

    /// Relies on `Readable::get` for `InMemoryRegister`: a volatile read of
    /// the cell's contents.
    #[verifier::external_body]
    pub fn get(&self) -> (value: u32)
        ensures
            value == reg_val(*self),
    {
        self.cell.get()
    }

    /// Relies on `Writeable::set` for `InMemoryRegister`: a volatile write
    /// that replaces the cell's contents with `value`.
    #[verifier::external_body]
    pub fn set(&mut self, value: u32)
        ensures
            reg_val(*final(self)) == value,
    {
        self.cell.set(value);
    }

    /// Relies on `ReadWriteable::modify` with `FieldValue::new(mask, shift,
    /// value)`: `FieldValue::new` stores `mask << shift` and `(value & mask)
    /// << shift`, and `modify` reads the cell, clears the stored mask, ors
    /// in the stored value and writes the result back — a read-modify-write
    /// that touches only the selected field.
    #[verifier::external_body]
    pub fn modify_field(&mut self, mask: u32, shift: u32, value: u32)
        requires
            shift < 32,
        ensures
            reg_val(*final(self)) == field_set(reg_val(*old(self)), mask, shift, value),
    {
        self.cell.modify(FieldValue::<u32, ()>::new(mask, shift as usize, value));
    }
}

} // verus!
