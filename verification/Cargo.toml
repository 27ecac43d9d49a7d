[package]
name = "nx"
version = "0.1.0"
edition = "2021"
publish = false

[dependencies]
zeroize = { version = "1", default-features = false }
