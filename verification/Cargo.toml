[package]
name = "eth_rpc_module"
version = "1.0.0"
edition = "2021"
publish = false

[dependencies]
serde = { version = "=1.0.229", features = ["derive"] }
serde_json = { version = "=1.0.154", features = ["float_roundtrip"] }
reqwest = { version = "=0.12.28", default-features = false, features = ["blocking", "json", "rustls-tls", "socks"] }
