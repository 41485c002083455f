[package]
name = "cw721"
version = "0.1.0"
edition = "2021"
publish = false

[dependencies]
cosmwasm-schema = "1.5"
cosmwasm-std = "1.5"
cw-ownable = "0.5"
cw-utils = "1.0"
serde = { version = "1", features = ["derive"] }
