//! The global interrupt mask, bit 7 of the status register.

use crate::bits::{bit_is_set, lemma_with_bit_reads, lemma_with_bit_restores, with_bit};
use crate::register::Register;
use vstd::prelude::*;

verus! {

/// Position of the global interrupt flag in the status register.
pub const GLOBAL_INTERRUPT_BIT: u8 = 7;

/// What the mask was when it was last disabled. Handing it back restores that
/// state, so nested guards leave the mask as the outermost one found it.
pub struct PriorState {
    enabled: bool,
}

impl PriorState {
    /// Whether interrupts were enabled when the guard was taken.
    pub closed spec fn was_enabled(&self) -> bool {
        self.enabled
    }
}

/// The status register that holds the global interrupt flag.
pub struct GlobalInterrupts {
    sreg: Register,
}

impl View for GlobalInterrupts {
    type V = u8;

    closed spec fn view(&self) -> u8 {
        self.sreg@
    }
}

impl GlobalInterrupts {
    /// Whether interrupts are globally enabled.
    pub open spec fn enabled(&self) -> bool {
        bit_is_set(self@, GLOBAL_INTERRUPT_BIT)
    }

    /// A status register with the given content.
    pub fn new(sreg: u8) -> (irq: GlobalInterrupts)
        ensures
            irq@ == sreg,
    {
        GlobalInterrupts { sreg: Register::new(sreg) }
    }

    /// The content of the status register.
    pub fn status(&self) -> (sreg: u8)
        ensures
            sreg == self@,
    {
        self.sreg.read()
    }

    /// Whether interrupts are globally enabled.
    pub fn is_enabled(&self) -> (enabled: bool)
        ensures
            enabled == self.enabled(),
    {
        self.sreg.get_bit(GLOBAL_INTERRUPT_BIT)
    }

    /// Acquires the guard: clears the global interrupt flag and reports what it
    /// was.
    pub fn disable(&mut self) -> (prior: PriorState)
        ensures
            final(self)@ == with_bit(old(self)@, GLOBAL_INTERRUPT_BIT, false),
            !final(self).enabled(),
            prior.was_enabled() == old(self).enabled(),
    {
        let enabled: bool = self.sreg.get_bit(GLOBAL_INTERRUPT_BIT);
        self.sreg.update_bit(GLOBAL_INTERRUPT_BIT, false);
        proof {
            lemma_with_bit_reads(old(self)@, GLOBAL_INTERRUPT_BIT, false, GLOBAL_INTERRUPT_BIT);
        }
        PriorState { enabled }
    }

    /// Releases the guard: puts the global interrupt flag back to what `prior`
    /// recorded.
    pub fn enable(&mut self, prior: PriorState)
        ensures
            final(self)@ == with_bit(old(self)@, GLOBAL_INTERRUPT_BIT, prior.was_enabled()),
            final(self).enabled() == prior.was_enabled(),
    {
        self.sreg.update_bit(GLOBAL_INTERRUPT_BIT, prior.enabled);
        proof {
            lemma_with_bit_reads(
                old(self)@,
                GLOBAL_INTERRUPT_BIT,
                prior.enabled,
                GLOBAL_INTERRUPT_BIT,
            );
        }
    }
}

/// Disabling the mask and then enabling it with the state that the disable
/// reported leaves the status register exactly as it was.
pub proof fn lemma_guard_is_balanced(sreg: u8)
    ensures
        with_bit(
            with_bit(sreg, GLOBAL_INTERRUPT_BIT, false),
            GLOBAL_INTERRUPT_BIT,
            bit_is_set(sreg, GLOBAL_INTERRUPT_BIT),
        ) == sreg,
{
    lemma_with_bit_restores(sreg, GLOBAL_INTERRUPT_BIT, false);
}

} // verus!
