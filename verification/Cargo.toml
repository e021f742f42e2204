[package]
name = "keyring"
version = "0.1.0"
edition = "2021"
publish = false

[dependencies]
secret-service = { version = "=4.0.0", features = ["rt-async-io-crypto-rust"] }
