[package]
name = "gveditor_core"
version = "0.1.0"
edition = "2021"
publish = false

[dependencies]
tokio = { version = "*", features = ["rt-multi-thread", "sync", "macros", "time"] }
serde = { version = "*", features = ["derive"] }
async-trait = "*"
jsonrpc-core = "*"
jsonrpc-derive = "*"
