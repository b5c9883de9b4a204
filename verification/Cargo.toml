[package]
name = "cdcx913"
version = "0.1.0"
edition = "2021"
publish = false

[dependencies]
arbitrary-int = "*"
embedded-hal-async = "*"
