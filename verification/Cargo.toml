[package]
name = "escrow"
version = "0.1.0"
edition = "2021"
publish = false

[dependencies]
solana-program = "1.6.9"
spl-token = { version = "3.1.1", default-features = false, features = ["no-entrypoint"] }
thiserror = "1.0.24"
