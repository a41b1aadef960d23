[package]
name = "margin_core"
version = "0.1.0"
edition = "2021"
publish = false

[dependencies]
anchor-lang = "0.29.0"
arrayref = "0.3"
solana-program = "1.17"
