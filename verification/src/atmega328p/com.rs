//! Communication peripherals.

pub mod i2c;
