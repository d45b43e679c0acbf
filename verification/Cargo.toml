[package]
name = "daqiao"
version = "0.1.0"
edition = "2021"
publish = false

[dependencies]
parity-codec = { version = "=3.4.0", features = ["derive"] }
