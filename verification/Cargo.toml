[package]
name = "settlement_engine"
version = "0.1.0"
edition = "2021"
publish = false

[dependencies]
solana-program = "*"
solana-sha256-hasher = "*"
