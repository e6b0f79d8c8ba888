//! Drivers for the ATmega328P.

pub mod com;
pub mod hal;
