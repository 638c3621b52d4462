[package]
name = "channel_ledger"
version = "0.1.0"
edition = "2021"
publish = false

[dependencies]
cosmwasm-schema = "1"
cosmwasm-std = { version = "1", features = ["stargate"] }
cw-storage-plus = "1"
cw-utils = "1"
cw20 = "1"
