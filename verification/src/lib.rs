//! Protocol engine for FTDI H-series bridges driven through their MPSSE.
//!
//! The crate turns one MPSSE-capable device into SPI, I2C and GPIO
//! peripherals. It performs no input or output itself: every operation yields
//! the command bytes to write to the device together with the number of bytes
//! the device answers with, and takes that answer back as a plain byte slice.

pub mod builder;
pub mod bus;
pub mod devices;
pub mod error;
pub mod ft232h;
pub mod gpio;
pub mod i2c;
pub mod mpsse;
pub mod spi;
pub mod transcript;
pub mod um232;
pub mod x232h;
