[package]
name = "balansol"
version = "0.1.0"
edition = "2021"
publish = false

[dependencies]
anchor-lang = { version = "=0.29.0", features = ["init-if-needed"] }
anchor-spl = "=0.29.0"
anyhow = "=1.0.104"
lazy_static = "=1.5.1"
num-traits = "=0.2.19"
solana-sdk = "=1.17.14"
spl-memo = "=4.0.0"
spl-token = "=4.0.0"
