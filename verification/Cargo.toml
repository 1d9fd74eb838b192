[package]
name = "jsonrpc_sdk"
version = "0.1.0"
edition = "2021"
publish = false

[dependencies]
jsonrpc-core = "10.1"
serde_json = "1.0"
reqwest = { version = "0.9", default-features = false }
futures = "0.1"
syn = { version = "0.15", features = ["full"] }
quote = "0.6"
proc-macro2 = "0.4"
