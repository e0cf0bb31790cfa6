[package]
name = "pachi"
version = "0.1.0"
edition = "2021"
publish = false

[dependencies]
alloy-primitives = "*"
serde = { version = "1", features = ["derive"] }
serde_json = "1"
thiserror = "*"
tokio = { version = "1", features = ["rt-multi-thread", "sync", "time", "macros"] }
tokio-tungstenite = "*"
futures = "0.3"
parking_lot = "0.12"
tracing = "0.1"
