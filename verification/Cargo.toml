[package]
name = "naim"
version = "0.1.0"
edition = "2021"
publish = false

[dependencies]
anchor-lang = { version = "0.32", features = ["init-if-needed"] }
anchor-spl = { version = "0.32", default-features = false, features = ["associated_token", "mint", "token", "token_2022"] }
solana-security-txt = "1"
solana-sha256-hasher = "2"
