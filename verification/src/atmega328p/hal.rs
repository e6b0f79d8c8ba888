//! Core services of the chip.

pub mod interrupt;
pub mod watchdog;
