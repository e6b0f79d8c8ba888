//! The power-reduction registers, whose bits switch peripherals off.

use crate::bits::{lemma_with_bit_idempotent, with_bit};
use crate::register::Register;
use vstd::prelude::*;

verus! {

/// One of the two power-reduction registers.
#[derive(Clone, Copy, Debug, PartialEq, Eq, Structural)]
pub enum PowerRegister {
    Prr0,
    Prr1,
}

/// The content of both power-reduction registers.
#[derive(Clone, Copy, Debug, PartialEq, Eq, Structural)]
pub struct PowerState {
    pub prr0: u8,
    pub prr1: u8,
}

impl PowerState {
    /// The content of `register`.
    pub open spec fn get(self, register: PowerRegister) -> u8 {
        match register {
            PowerRegister::Prr0 => self.prr0,
            PowerRegister::Prr1 => self.prr1,
        }
    }

    /// This state with `register` holding `value`.
    pub open spec fn set(self, register: PowerRegister, value: u8) -> PowerState {
        match register {
            PowerRegister::Prr0 => PowerState { prr0: value, ..self },
            PowerRegister::Prr1 => PowerState { prr1: value, ..self },
        }
    }

    /// This state with bit `bit` of `register` set, which takes the power
    /// from the peripheral behind that bit.
    pub open spec fn raised(self, register: PowerRegister, bit: u8) -> PowerState {
        self.set(register, with_bit(self.get(register), bit, true))
    }

    /// This state with bit `bit` of `register` cleared, which powers the
    /// peripheral behind that bit.
    pub open spec fn cleared(self, register: PowerRegister, bit: u8) -> PowerState {
        self.set(register, with_bit(self.get(register), bit, false))
    }
}

/// The power-reduction service.
pub struct Power {
    prr0: Register,
    prr1: Register,
}

impl View for Power {
    type V = PowerState;

    closed spec fn view(&self) -> PowerState {
        PowerState { prr0: self.prr0@, prr1: self.prr1@ }
    }
}

impl Power {
    /// Power-reduction registers with the given content.
    pub fn new(state: PowerState) -> (power: Power)
        ensures
            power@ == state,
    {
        Power { prr0: Register::new(state.prr0), prr1: Register::new(state.prr1) }
    }

    /// The content of both registers.
    pub fn state(&self) -> (state: PowerState)
        ensures
            state == self@,
    {
        PowerState { prr0: self.prr0.read(), prr1: self.prr1.read() }
    }

    /// Sets one bit of one register and leaves everything else alone.
    pub fn set_bit(&mut self, register: PowerRegister, bit: u8)
        requires
            bit < 8,
        ensures
            final(self)@ == old(self)@.raised(register, bit),
    {
        match register {
            PowerRegister::Prr0 => self.prr0.update_bit(bit, true),
            PowerRegister::Prr1 => self.prr1.update_bit(bit, true),
        }
    }

    /// Clears one bit of one register and leaves everything else alone.
    pub fn clear_bit(&mut self, register: PowerRegister, bit: u8)
        requires
            bit < 8,
        ensures
            final(self)@ == old(self)@.cleared(register, bit),
    {
        match register {
            PowerRegister::Prr0 => self.prr0.update_bit(bit, false),
            PowerRegister::Prr1 => self.prr1.update_bit(bit, false),
        }
    }
}

/// Clearing a power-reduction bit a second time changes nothing.
pub proof fn lemma_clear_is_idempotent(state: PowerState, register: PowerRegister, bit: u8)
    requires
        bit < 8,
    ensures
        state.cleared(register, bit).cleared(register, bit) == state.cleared(register, bit),
{
    lemma_with_bit_idempotent(state.get(register), bit, false);
}

} // verus!
