[package]
name = "lnp_core"
version = "0.1.0"
edition = "2021"
publish = false

[dependencies]
bitcoin = "*"
secp256k1 = "*"
