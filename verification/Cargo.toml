[package]
name = "bls_codec"
version = "0.1.0"
edition = "2021"
publish = false

[dependencies]
bls12_381 = "*"
serde = "*"
