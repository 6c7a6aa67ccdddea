[package]
name = "tmc2160_driver"
version = "0.1.0"
edition = "2021"
publish = false

[dependencies]
embedded-hal = "1.0"

[dev-dependencies]
bitfield = "*"
