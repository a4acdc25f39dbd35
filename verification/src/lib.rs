//! Register-value logic of a GPIO, TWI and UART driver for the nRF52840.
//!
//! The library computes every value that the driver writes to, or decodes
//! from, the chip's memory-mapped registers; the register accesses themselves
//! are made by the caller.
pub mod registers;


pub mod gestalt;
pub mod non_gestalt;
