[package]
name = "solend_cpi"
version = "0.1.0"
edition = "2021"
publish = false

[dependencies]
anchor-lang = "0.31.2"
spl-token = "9.0.0"
spl-token-lending = "0.2.0"
