[package]
name = "validator_governance"
version = "0.1.0"
edition = "2021"
publish = false

[dependencies]
spl-governance = "=4.0.0"
solana-program = "=1.18.26"
