//! Register-level drivers for AVR microcontroller peripherals, with the
//! behaviour of every driver stated as a contract and proved.
//!
//! Each peripheral owns its register file, so a driver can be exercised on an
//! ordinary value as well as on the device.
//!
//! - [`atmega2560p::com::usart_initialize`] configures the serial units:
//!   mode, clock divisor and frame format, under the interrupt guard.
//! - [`atmega2560p::hal`] holds the services that the serial units share, the
//!   analog-to-digital converter and the PWM timers.
//! - [`atmega328p`] holds the watchdog timer and the two-wire bus.
//! - [`sensors::mpu6050`] drives the MPU-6050 motion sensor over that bus.
//! - [`bits`], [`register`] and [`frame`] are what the drivers are built on:
//!   bit fields, volatile registers and bus frames.

pub mod atmega2560p;
pub mod atmega328p;
pub mod bits;
pub mod frame;
pub mod register;
pub mod sensors;
