[package]
name = "recrypt_node"
version = "0.1.0"
edition = "2021"
publish = false

[dependencies]
recrypt = "*"
neon = "*"
