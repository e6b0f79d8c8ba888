//! Drivers for sensors on the two-wire bus.

pub mod mpu6050;
