//! Data-direction control for the ports that carry serial lines.

use crate::bits::with_bit;
use crate::register::Register;
use vstd::prelude::*;

verus! {

/// The ports on which the serial units have their clock, transmit and
/// receive lines.
#[derive(Clone, Copy, Debug, PartialEq, Eq, Structural)]
pub enum PortName {
    D,
    E,
    H,
    J,
}

/// Direction of one pin.
#[derive(Clone, Copy, Debug, PartialEq, Eq, Structural)]
pub enum Direction {
    Input,
    Output,
}

impl Direction {
    /// The data-direction bit that selects this direction.
    pub open spec fn spec_bit(self) -> bool {
        self == Direction::Output
    }

    /// The data-direction bit that selects this direction.
    #[verifier::when_used_as_spec(spec_bit)]
    pub fn bit(self) -> (bit: bool)
        ensures
            bit == self.spec_bit(),
    {
        match self {
            Direction::Input => false,
            Direction::Output => true,
        }
    }
}

/// The content of the data-direction registers.
#[derive(Clone, Copy, Debug, PartialEq, Eq, Structural)]
pub struct GpioState {
    pub ddr_d: u8,
    pub ddr_e: u8,
    pub ddr_h: u8,
    pub ddr_j: u8,
}

impl GpioState {
    /// The data-direction register of `port`.
    pub open spec fn ddr(self, port: PortName) -> u8 {
        match port {
            PortName::D => self.ddr_d,
            PortName::E => self.ddr_e,
            PortName::H => self.ddr_h,
            PortName::J => self.ddr_j,
        }
    }

    /// This state with the data-direction register of `port` holding `value`.
    pub open spec fn with_ddr(self, port: PortName, value: u8) -> GpioState {
        match port {
            PortName::D => GpioState { ddr_d: value, ..self },
            PortName::E => GpioState { ddr_e: value, ..self },
            PortName::H => GpioState { ddr_h: value, ..self },
            PortName::J => GpioState { ddr_j: value, ..self },
        }
    }

    /// This state with pin `pin` of `port` pointing in `direction`.
    pub open spec fn directed(self, port: PortName, pin: u8, direction: Direction) -> GpioState {
        self.with_ddr(port, with_bit(self.ddr(port), pin, direction.spec_bit()))
    }
}

/// The pin-direction service.
pub struct Gpio {
    ddr_d: Register,
    ddr_e: Register,
    ddr_h: Register,
    ddr_j: Register,
}

impl View for Gpio {
    type V = GpioState;

    closed spec fn view(&self) -> GpioState {
        GpioState { ddr_d: self.ddr_d@, ddr_e: self.ddr_e@, ddr_h: self.ddr_h@, ddr_j: self.ddr_j@ }
    }
}

impl Gpio {
    /// Data-direction registers with the given content.
    pub fn new(state: GpioState) -> (gpio: Gpio)
        ensures
            gpio@ == state,
    {
        Gpio {
            ddr_d: Register::new(state.ddr_d),
            ddr_e: Register::new(state.ddr_e),
            ddr_h: Register::new(state.ddr_h),
            ddr_j: Register::new(state.ddr_j),
        }
    }

    /// The content of the data-direction registers.
    pub fn state(&self) -> (state: GpioState)
        ensures
            state == self@,
    {
        GpioState {
            ddr_d: self.ddr_d.read(),
            ddr_e: self.ddr_e.read(),
            ddr_h: self.ddr_h.read(),
            ddr_j: self.ddr_j.read(),
        }
    }

    /// Points one pin of one port in `direction` and leaves every other pin
    /// alone.
    pub fn set_direction(&mut self, port: PortName, pin: u8, direction: Direction)
        requires
            pin < 8,
        ensures
            final(self)@ == old(self)@.directed(port, pin, direction),
    {
        let bit: bool = direction.bit();
        match port {
            PortName::D => self.ddr_d.update_bit(pin, bit),
            PortName::E => self.ddr_e.update_bit(pin, bit),
            PortName::H => self.ddr_h.update_bit(pin, bit),
            PortName::J => self.ddr_j.update_bit(pin, bit),
        }
    }
}

} // verus!
