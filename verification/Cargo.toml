[package]
name = "nrf_gestalt"
version = "0.1.0"
edition = "2021"
publish = false

[dependencies]
nrf52840 = "*"
num-derive = "*"
num-traits = "*"
