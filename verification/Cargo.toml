[package]
name = "my_collection_manager"
version = "0.1.0"
edition = "2021"
publish = false

[dependencies]
cosmwasm-schema = "2"
cosmwasm-std = "2"
cw-storage-plus = "2"
cw721 = "0.20"
thiserror = "1"
