[package]
name = "custody"
version = "0.1.0"
edition = "2021"
publish = false

[dependencies]
hex = "=0.4.3"
sha2 = "=0.11.0"
near-sdk = { version = "=5.29.1", features = ["non-contract-usage"] }
schemars = "=1.2.2"
