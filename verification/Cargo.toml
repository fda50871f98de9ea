[package]
name = "swap_v2"
version = "0.1.0"
edition = "2021"
publish = false

[dependencies]
anchor-lang = "=0.30.1"
serum_dex = "=0.5.4"
solana-program = "=1.18.26"
