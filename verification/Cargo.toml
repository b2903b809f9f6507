[package]
name = "basset_vault"
version = "0.1.0"
edition = "2021"
publish = false

[dependencies]
bigint = "4"
cosmwasm-bignumber = "2.2"
cosmwasm-std = "0.16"
cosmwasm-storage = "0.16"
cw-storage-plus = "0.8"
cw20 = "0.8"
schemars = "0.8"
serde = { version = "1", default-features = false, features = ["derive"] }
