[package]
name = "arena_core"
version = "0.1.0"
edition = "2021"
publish = false

[dependencies]
alloy = { version = "=0.3.6", features = ["contract", "network", "node-bindings", "provider-http", "rpc-types", "signer-local", "sol-types"] }
