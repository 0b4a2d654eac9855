[package]
name = "pn532_i2c"
version = "0.1.0"
edition = "2021"
publish = false

[dependencies]
embedded-hal = { version = "=0.2.7", features = ["unproven"] }
embedded-hal-async = "=1.0.0"
