[package]
name = "router_bot"
version = "0.1.0"
edition = "2021"
rust-version = "1.95"
publish = false

[dependencies]
ntex = { version = "2", features = ["tokio"] }
serde = { version = "=1.0.229", features = ["derive"] }
serde_json = { version = "=1.0.154", features = ["raw_value"] }
serde_urlencoded = "=0.7.1"
tokio = { version = "=1.54.1", features = ["macros", "rt-multi-thread", "signal", "sync", "time"] }
tracing = "=0.1.44"
tracing-subscriber = "=0.3.23"
