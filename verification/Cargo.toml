[package]
name = "exclusion_gate"
version = "0.1.0"
edition = "2021"
publish = false

[dependencies]
solana-program = "*"
solana-poseidon = "*"
solana-system-interface = { version = "*", features = ["bincode"] }
