//! Pins as the analog and PWM drivers see them: a number and a direction.

use crate::atmega2560p::hal::port::Direction;
use vstd::prelude::*;

verus! {

/// One pin with its direction.
pub struct Pin {
    direction: Direction,
}

impl View for Pin {
    type V = Direction;

    closed spec fn view(&self) -> Direction {
        self.direction
    }
}

impl Pin {
    /// A pin that points inward, as every pin does after a reset.
    pub fn new() -> (pin: Pin)
        ensures
            pin@ == Direction::Input,
    {
        Pin { direction: Direction::Input }
    }

    /// The direction of the pin.
    pub fn direction(&self) -> (direction: Direction)
        ensures
            direction == self@,
    {
        self.direction
    }

    /// Points the pin inward.
    pub fn input(&mut self)
        ensures
            final(self)@ == Direction::Input,
    {
        self.direction = Direction::Input;
    }

    /// Points the pin outward.
    pub fn output(&mut self)
        ensures
            final(self)@ == Direction::Output,
    {
        self.direction = Direction::Output;
    }
}

/// A pin that can be sampled by the analog-to-digital converter.
pub struct AnalogPin {
    pub pin: Pin,
    pub pinno: u32,
}

/// A pin that can carry a pulse-width modulated wave.
pub struct DigitalPin {
    pub pin: Pin,
    pub pinno: usize,
}

} // verus!
