[package]
name = "scalar_functions"
version = "0.1.0"
edition = "2021"
publish = false

[dependencies]
arrow = { version = "3.0.0", default-features = false }
