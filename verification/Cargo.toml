[package]
name = "creditcoin"
version = "0.1.0"
edition = "2021"
publish = false

[dependencies]
sp-core = "=43.0.0"
sp-crypto-hashing = "=0.1.0"
ethabi = "=18.0.0"
secp256k1 = "=0.28.2"
