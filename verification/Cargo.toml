[package]
name = "token_22_tc"
version = "0.1.0"
edition = "2021"
publish = false

[dependencies]
anchor-lang = "=1.2.2"
anchor-spl = "=1.2.2"
spl-token-2022-interface = "=2.1.0"
spl-token-confidential-transfer-proof-extraction = "=0.5.1"
solana-zk-sdk = "=4.0.0"
solana-pubkey = "=3.0.0"
