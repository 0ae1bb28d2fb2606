[package]
name = "hyperlane_test"
version = "0.1.0"
edition = "2021"
publish = false

[dependencies]
async-trait = "=0.1.92"
sha3 = "=0.10.9"
