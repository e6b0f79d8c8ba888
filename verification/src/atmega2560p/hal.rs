//! Core services of the chip that the peripheral drivers call into.

pub mod analog;
pub mod interrupts;
pub mod pin;
pub mod port;
pub mod power;

use crate::atmega2560p::hal::interrupts::GlobalInterrupts;
use crate::atmega2560p::hal::port::{Gpio, GpioState};
use crate::atmega2560p::hal::power::{Power, PowerState};
use vstd::prelude::*;

verus! {

/// The content of every register behind the services.
#[derive(Clone, Copy, Debug, PartialEq, Eq, Structural)]
pub struct HalState {
    pub sreg: u8,
    pub power: PowerState,
    pub gpio: GpioState,
}

/// The services that a peripheral driver needs while it reconfigures its
/// unit: the interrupt mask, the power-reduction registers and the pin
/// directions.
pub struct Hal {
    pub interrupts: GlobalInterrupts,
    pub power: Power,
    pub gpio: Gpio,
}

impl View for Hal {
    type V = HalState;

    open spec fn view(&self) -> HalState {
        HalState { sreg: self.interrupts@, power: self.power@, gpio: self.gpio@ }
    }
}

impl Hal {
    /// Services whose registers hold the given content.
    pub fn new(state: HalState) -> (hal: Hal)
        ensures
            hal@ == state,
    {
        Hal {
            interrupts: GlobalInterrupts::new(state.sreg),
            power: Power::new(state.power),
            gpio: Gpio::new(state.gpio),
        }
    }

    /// The content of every register behind the services.
    pub fn state(&self) -> (state: HalState)
        ensures
            state == self@,
    {
        HalState {
            sreg: self.interrupts.status(),
            power: self.power.state(),
            gpio: self.gpio.state(),
        }
    }
}

} // verus!
