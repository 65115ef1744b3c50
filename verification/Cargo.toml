[package]
name = "usb251xb"
version = "0.1.0"
edition = "2021"
publish = false

[dependencies]
embedded-hal = "1.0"
embedded-hal-async = "1.0"
thiserror = "2"
modular-bitfield = "0.11"
