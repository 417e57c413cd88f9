[package]
name = "wss"
version = "0.1.0"
edition = "2021"
publish = false

[dependencies]
tokio = { version = "1", features = ["sync", "rt-multi-thread", "macros", "net"] }
hyper = { version = "0.14", features = ["server", "http1", "http2", "tcp"] }
hyper-tungstenite = "0.10"
futures-util = "0.3"
