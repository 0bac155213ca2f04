[package]
name = "token-metadata"
version = "0.1.0"
edition = "2021"
publish = false

[dependencies]
solana-program = "~1.10.29"
spl-token = { version = "3.3", features = ["no-entrypoint"] }
borsh = "0.9"
arrayref = "0.3"
thiserror = "1.0"
num-derive = "0.3"
num-traits = "0.2"
anchor-lang = "0.25"
anchor-spl = { version = "0.25", default-features = false, features = ["token"] }
