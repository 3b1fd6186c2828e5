[package]
name = "hmac_sha256"
version = "0.1.0"
edition = "2021"
publish = false

[dependencies]
solana-nostd-sha256 = "*"
