[package]
name = "commit_reveal"
version = "0.1.0"
edition = "2021"
publish = false

[dependencies]
anchor-lang = "=1.2.1"
borsh = "=1.8.1"
solana-program = "=5.1.0"
solana-system-interface = { version = "*", features = ["bincode"] }
