[package]
name = "proxy"
version = "0.1.0"
edition = "2021"
publish = false

[dependencies]
cosmwasm-std = "*"
cw-utils = "*"
serde = { version = "*", features = ["derive"] }
