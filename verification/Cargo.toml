[package]
name = "token_recipes"
version = "0.1.0"
edition = "2021"
publish = false

[dependencies]
borsh = "0.10"
num-derive = "0.3"
num-traits = "0.2"
shank = "*"
solana-program = "1.16"
spl-associated-token-account = { version = "1.1", features = ["no-entrypoint"] }
spl-token = { version = "3.5", features = ["no-entrypoint"] }
thiserror = "1.0"
