[package]
name = "rustduino"
version = "0.1.0"
edition = "2021"
publish = false

[dependencies]
bit_field = "0.10"
volatile = "0.2"
fixed-slice-vec = "*"
