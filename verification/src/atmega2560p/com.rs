//! Communication peripherals.

pub mod usart_initialize;
