//! The watchdog timer: its reset flags in the MCU status register and its
//! control register.

use crate::atmega328p::hal::interrupt::{Interrupt, GLOBAL_INTERRUPT_BIT};
use crate::bits::with_bit;
use vstd::prelude::*;

verus! {

/// The reset flags that a watchdog reset keeps: power-on, external and
/// brown-out.
pub const KEPT_RESET_FLAGS: u8 = 0x7;

/// The change-enable and system-reset-enable bits of the control register,
/// which are set together to open the control register for a change.
pub const CHANGE_ENABLE: u8 = 0x18;

/// The content of the watchdog's registers.
#[derive(Clone, Copy, Debug, PartialEq, Eq, Structural)]
pub struct WatchdogState {
    pub mcusr: u8,
    pub wdtcsr: u8,
}

/// The watchdog timer.
pub struct Watchdog {
    mcusr: u8,
    wdtcsr: u8,
}

impl View for Watchdog {
    type V = WatchdogState;

    closed spec fn view(&self) -> WatchdogState {
        WatchdogState { mcusr: self.mcusr, wdtcsr: self.wdtcsr }
    }
}

impl Watchdog {
    /// A watchdog with both registers cleared.
    pub fn new() -> (watchdog: Watchdog)
        ensures
            watchdog@ == (WatchdogState { mcusr: 0, wdtcsr: 0 }),
    {
        Watchdog { mcusr: 0, wdtcsr: 0 }
    }

    /// A watchdog whose registers hold the given content.
    pub fn from_state(state: WatchdogState) -> (watchdog: Watchdog)
        ensures
            watchdog@ == state,
    {
        Watchdog { mcusr: state.mcusr, wdtcsr: state.wdtcsr }
    }

    /// The content of the registers.
    pub fn state(&self) -> (state: WatchdogState)
        ensures
            state == self@,
    {
        WatchdogState { mcusr: self.mcusr, wdtcsr: self.wdtcsr }
    }

    /// Clears the watchdog reset flag, and with it every flag of the MCU
    /// status register above the three kept ones.
    pub fn reset_watchdog(&mut self)
        ensures
            final(self)@ == (WatchdogState {
                mcusr: old(self)@.mcusr & KEPT_RESET_FLAGS,
                ..old(self)@
            }),
    {
        let mut ctrl_mcusr: u8 = self.mcusr;
        ctrl_mcusr = ctrl_mcusr & KEPT_RESET_FLAGS;
        self.mcusr = ctrl_mcusr;
    }

    /// Switches the watchdog off: with interrupts disabled, clears the
    /// watchdog reset flag, opens the control register for a change and
    /// clears it. Interrupts are enabled afterwards.
    pub fn disable(&mut self, interrupt: &mut Interrupt)
        ensures
            final(self)@ == (WatchdogState {
                mcusr: old(self)@.mcusr & KEPT_RESET_FLAGS,
                wdtcsr: 0,
            }),
            final(interrupt)@ == with_bit(old(interrupt)@, GLOBAL_INTERRUPT_BIT, true),
            final(interrupt).enabled(),
    {
        interrupt.disable();
        self.reset_watchdog();
        let mut ctrl_wdtcsr: u8 = self.wdtcsr;
        ctrl_wdtcsr = ctrl_wdtcsr | CHANGE_ENABLE;
        self.wdtcsr = ctrl_wdtcsr;
        self.wdtcsr = 0x00;
        interrupt.enable();
        proof {
            lemma_flag_set_after_clear(old(interrupt)@);
        }
    }
}

/// Setting the interrupt flag after clearing it gives what setting it alone
/// gives.
proof fn lemma_flag_set_after_clear(sreg: u8)
    by (bit_vector)
    ensures
        with_bit(with_bit(sreg, 7, false), 7, true) == with_bit(sreg, 7, true),
{
}

/// Resetting the watchdog a second time changes nothing.
pub proof fn lemma_reset_is_idempotent(mcusr: u8)
    by (bit_vector)
    ensures
        (mcusr & KEPT_RESET_FLAGS) & KEPT_RESET_FLAGS == mcusr & KEPT_RESET_FLAGS,
{
}

} // verus!
