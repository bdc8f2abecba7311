[package]
name = "oqs_kex_rpc"
version = "0.1.0"
edition = "2021"
publish = false

[dependencies]
oqs = "=0.11.0"
jsonrpc-client-http = "=0.5.0"
jsonrpc-client-core = "=0.5.0"
serde = { version = "1", features = ["derive"] }
