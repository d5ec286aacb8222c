[package]
name = "ftdi-embedded-hal"
version = "0.1.0"
edition = "2021"
publish = false

[dependencies]
embedded-hal = "0.2"
ftdi-mpsse = "0.1"
nb = "1"

[dev-dependencies]
itertools = "0.10"
rand = "0.8"
