[package]
name = "cdp-lite"
version = "0.2.0"
edition = "2021"
publish = false

[dependencies]
futures-util = { version = "=0.3.34", features = ["sink"] }
oneshot = { version = "=0.2.1", features = ["async", "std"] }
reqwest = { version = "=0.12.28", default-features = false, features = ["json"] }
serde = { version = "=1.0.229", features = ["derive"] }
serde_json = "=1.0.154"
thiserror = "=2.0.21"
tokio = { version = "=1.54.1", features = ["rt-multi-thread", "macros", "sync", "time", "net"] }
tokio-stream = { version = "=0.1.19", features = ["sync"] }
tokio-tungstenite = "=0.30.0"
tracing = "=0.1.44"
