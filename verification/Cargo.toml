[package]
name = "lockrion_issuance_v1_1"
version = "0.1.0"
edition = "2021"
publish = false

[dependencies]
solana-program = "*"
spl-token = "*"
thiserror = "*"
