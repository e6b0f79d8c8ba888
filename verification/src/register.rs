//! A single hardware register held in a volatile cell.

use crate::bits::{bit_is_set, fits_field, get_bit, set_bit, set_bits, with_bit, with_field};
use volatile::Volatile;
use vstd::prelude::*;

verus! {

/// `volatile::Volatile`, carried through as an opaque value.
#[verifier::external_type_specification]
#[verifier::external_body]
#[verifier::reject_recursive_types(T)]
pub struct ExVolatile<T: Copy>(Volatile<T>);

/// The byte that a volatile cell holds: the value it was made with or, after
/// a write, the value last written. This is what a cell in ordinary memory
/// does, and every cell of this library is one.
pub uninterp spec fn stored(cell: Volatile<u8>) -> u8;

/// Makes a cell through `volatile::Volatile::new`, which wraps the value.
#[verifier::external_body]
fn cell_new(value: u8) -> (cell: Volatile<u8>)
    ensures
        stored(cell) == value,
{
    Volatile::new(value)
}

/// Reads a cell through `volatile::Volatile::read`, a volatile load of the
/// wrapped value.
#[verifier::external_body]
fn cell_read(cell: &Volatile<u8>) -> (value: u8)
    ensures
        value == stored(*cell),
{
    cell.read()
}

/// Writes a cell through `volatile::Volatile::write`, a volatile store over
/// the wrapped value.
#[verifier::external_body]
fn cell_write(cell: &mut Volatile<u8>, value: u8)
    ensures
        stored(*final(cell)) == value,
{
    cell.write(value)
}

/// One eight-bit register with exclusive access to its cell.
pub struct Register {
    cell: Volatile<u8>,
}

impl View for Register {
    type V = u8;

    closed spec fn view(&self) -> u8 {
        stored(self.cell)
    }
}

impl Register {
    /// A register holding `value`.
    pub fn new(value: u8) -> (reg: Register)
        ensures
            reg@ == value,
    {
        Register { cell: cell_new(value) }
    }

    /// The register's current content.
    pub fn read(&self) -> (value: u8)
        ensures
            value == self@,
    {
        cell_read(&self.cell)
    }

    /// Replaces the register's content.
    pub fn write(&mut self, value: u8)
        ensures
            final(self)@ == value,
    {
        cell_write(&mut self.cell, value)
    }

    /// Whether bit `bit` is set.
    pub fn get_bit(&self, bit: u8) -> (set: bool)
        requires
            bit < 8,
        ensures
            set == bit_is_set(self@, bit),
    {
        get_bit(self.read(), bit)
    }

    /// Read-modify-write of a single bit.
    pub fn update_bit(&mut self, bit: u8, value: bool)
        requires
            bit < 8,
        ensures
            final(self)@ == with_bit(old(self)@, bit, value),
    {
        let current: u8 = self.read();
        self.write(set_bit(current, bit, value));
    }

    /// Read-modify-write of the bit range `lo..hi`.
    pub fn update_bits(&mut self, lo: u8, hi: u8, value: u8)
        requires
            fits_field(lo, hi, value),
        ensures
            final(self)@ == with_field(old(self)@, lo, hi, value),
    {
        let current: u8 = self.read();
        self.write(set_bits(current, lo, hi, value));
    }
}

} // verus!
