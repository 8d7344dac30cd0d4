[package]
name = "edge_engine"
version = "0.1.0"
edition = "2021"
publish = false

[dependencies]
serde_json = "1"
tokio = { version = "1", features = ["macros", "rt-multi-thread", "net", "time", "signal"] }
tokio-tungstenite = "*"
futures-util = "0.3"
