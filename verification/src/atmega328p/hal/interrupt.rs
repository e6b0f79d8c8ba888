//! The global interrupt flag, bit 7 of the status register.

use crate::bits::{bit_is_set, lemma_with_bit_reads, with_bit};
use crate::register::Register;
use vstd::prelude::*;

verus! {

/// Position of the global interrupt flag in the status register.
pub const GLOBAL_INTERRUPT_BIT: u8 = 7;

/// The status register that holds the global interrupt flag.
pub struct Interrupt {
    sreg: Register,
}

impl View for Interrupt {
    type V = u8;

    closed spec fn view(&self) -> u8 {
        self.sreg@
    }
}

impl Interrupt {
    /// Whether interrupts are globally enabled.
    pub open spec fn enabled(&self) -> bool {
        bit_is_set(self@, GLOBAL_INTERRUPT_BIT)
    }

    /// A status register with the given content.
    pub fn new(sreg: u8) -> (interrupt: Interrupt)
        ensures
            interrupt@ == sreg,
    {
        Interrupt { sreg: Register::new(sreg) }
    }

    /// The content of the status register.
    pub fn status(&self) -> (sreg: u8)
        ensures
            sreg == self@,
    {
        self.sreg.read()
    }

    /// Clears the global interrupt flag.
    pub fn disable(&mut self)
        ensures
            final(self)@ == with_bit(old(self)@, GLOBAL_INTERRUPT_BIT, false),
            !final(self).enabled(),
    {
        self.sreg.update_bit(GLOBAL_INTERRUPT_BIT, false);
        proof {
            lemma_with_bit_reads(old(self)@, GLOBAL_INTERRUPT_BIT, false, GLOBAL_INTERRUPT_BIT);
        }
    }

    /// Sets the global interrupt flag.
    pub fn enable(&mut self)
        ensures
            final(self)@ == with_bit(old(self)@, GLOBAL_INTERRUPT_BIT, true),
            final(self).enabled(),
    {
        self.sreg.update_bit(GLOBAL_INTERRUPT_BIT, true);
        proof {
            lemma_with_bit_reads(old(self)@, GLOBAL_INTERRUPT_BIT, true, GLOBAL_INTERRUPT_BIT);
        }
    }
}

} // verus!
