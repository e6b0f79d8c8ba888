//! Drivers for the ATmega2560.

pub mod com;
pub mod hal;
