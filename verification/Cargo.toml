[package]
name = "trading_control"
version = "0.1.0"
edition = "2021"
publish = false

[dependencies]
rust_decimal = "1"
chrono = "0.4"
uuid = { version = "1", features = ["v4"] }
hmac = "0.12"
sha2 = "0.10"
hex = "0.4"
base64 = "0.22"
rand = "0.8"
dashmap = "5"
serde = { version = "1", features = ["derive"] }
serde_json = "1"
toml = "0.8"
anyhow = "1"
bytes = "1"
tokio = { version = "1", features = ["rt", "macros", "sync", "time"] }
tokio-tungstenite = "0.21"
futures-util = "0.3"
