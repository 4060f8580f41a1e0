[package]
name = "aml_core"
version = "0.1.0"
edition = "2021"
publish = false

[dependencies]
sha2 = "0.10"
cosmwasm-crypto = "1"
cosmwasm-std = "1"
cw-storage-plus = "1"
cw2 = "1"
serde = { version = "1", features = ["derive"] }

[dev-dependencies]
k256 = "0.13"
