[package]
name = "wick"
version = "0.1.0"
edition = "2021"
publish = false

[dependencies]
camino = { version = "=1.2.6", features = ["serde1"] }
compact_str = { version = "=0.10.0", features = ["serde"] }
http-body-util = "=0.1.5"
hyper = { version = "=1.12.0", features = ["client", "http1"] }
hyper-util = { version = "=0.1.21", features = ["client-legacy", "http1", "tokio"] }
hyperlocal = "=0.9.1"
serde = { version = "=1.0.229", features = ["derive"] }
serde_json = { version = "=1.0.154", features = ["preserve_order"] }
thiserror = "=2.0.21"
tracing = "=0.1.44"
