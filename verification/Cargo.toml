[package]
name = "scd30_interface"
version = "0.1.0"
edition = "2021"
publish = false

[dependencies]
byteorder = { version = "1", default-features = false }
embedded-hal = "1"
embedded-hal-async = "1"
thiserror = "2"
