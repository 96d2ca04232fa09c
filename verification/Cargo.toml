[package]
name = "payment_channel"
version = "0.1.0"
edition = "2021"
publish = false

[dependencies]
soroban-sdk = { version = "=29.0.1", features = ["hazmat-address"] }
ed25519-dalek = "=2.2.0"
k256 = "=0.13.4"

[dev-dependencies]
soroban-sdk = { version = "=29.0.1", features = ["hazmat-address", "testutils"] }
sha3 = "=0.10.9"
