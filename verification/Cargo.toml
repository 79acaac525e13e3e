[package]
name = "http_proxy_mock"
version = "0.1.0"
edition = "2021"
publish = false

[dependencies]
serde_json = "=1.0.151"
uuid = { version = "=1.27.0", features = ["v7"] }
serde = { version = "=1.0.229", features = ["derive"] }
axum = "=0.8.9"
tokio = { version = "=1.53.2", features = ["macros", "rt-multi-thread"] }
tracing = "=0.1.44"
regex = "=1.13.1"
configcat = "=0.1.7"
derust = { version = "=0.6.0", features = ["http_client", "prometheus"] }
