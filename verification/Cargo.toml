[package]
name = "chill"
version = "0.1.0"
edition = "2021"
publish = false

[dependencies]
solana-program = "=1.18.26"
spl-token = "=4.0.3"
clap = "=2.34.0"
colored = "=2.2.0"
dirs = "=4.0.0"
mpl-token-metadata = "*"
