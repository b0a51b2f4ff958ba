[package]
name = "spl_token_substreams"
version = "0.1.0"
edition = "2021"
publish = false

[dependencies]
bs58 = "*"
substreams = "*"
substreams-solana = "*"
substreams-solana-program-instructions = "*"
substreams-database-change = "*"
