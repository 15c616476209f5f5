[package]
name = "balance_watcher"
version = "0.1.0"
edition = "2021"
publish = false

[dependencies]
cosmwasm-schema = "1.5"
cosmwasm-std = "1.5"
cw-storage-plus = "1.2"
neutron-sdk = "0.8.0"
schemars = "0.8"
serde = { version = "1.0", features = ["derive"] }
serde-json-wasm = "1.0"
