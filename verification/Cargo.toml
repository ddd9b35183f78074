[package]
name = "wallet_scripts"
version = "0.1.0"
edition = "2021"
publish = false

[dependencies]
bitcoin = "0.27"
