[package]
name = "stellar_escrow"
version = "0.1.0"
edition = "2021"
publish = false

[dependencies]
soroban-sdk = "20"

[dev-dependencies]
sha2 = "0.10"
