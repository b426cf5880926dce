[package]
name = "order_settlement"
version = "0.1.0"
edition = "2021"
publish = false

[dependencies]
borsh = "0.10"
solana-program = "1.18"
spl-associated-token-account = { version = "2.3", features = ["no-entrypoint"] }
spl-token = { version = "4.0", features = ["no-entrypoint"] }
