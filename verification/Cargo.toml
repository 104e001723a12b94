[package]
name = "htlc"
version = "0.1.0"
edition = "2021"
publish = false

[dependencies]
anyhow = "1"
bitcoin = "0.31"
hex = "0.4"
secp256kfun = "0.10"
