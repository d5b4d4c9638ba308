[package]
name = "sidecar_link"
version = "0.1.0"
edition = "2021"
publish = false

[dependencies]
uuid = { version = "1", features = ["v4"] }
serde_json = "1"
tokio = { version = "1", features = ["net", "process", "sync", "rt-multi-thread", "macros", "io-util", "time"] }
tokio-tungstenite = "*"
futures-util = "0.3"
