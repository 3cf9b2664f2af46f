[package]
name = "private_lending"
version = "0.1.0"
edition = "2021"
publish = false

[dependencies]
sha2 = "0.10"
anchor-lang = "0.30.1"
anchor-spl = "0.30.1"
solana-program = "1.18"
ed25519-dalek = "1"
