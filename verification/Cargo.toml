[package]
name = "construct_vault_sol"
version = "0.1.0"
edition = "2021"
publish = false

[dependencies]
solana-program = "=5.1.0"
solana-system-interface = { version = "=3.3.0", features = ["bincode"] }
spl-token = "=9.0.0"
spl-associated-token-account = "=8.0.0"

[dev-dependencies]
borsh = "=1.8.1"
