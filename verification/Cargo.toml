[package]
name = "attested_router"
version = "0.1.0"
edition = "2021"
publish = false

[dependencies]
aes-gcm = "*"
blake2 = "*"
rand_chacha = "*"
rand_core = "*"
