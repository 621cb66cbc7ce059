[package]
name = "rusty_ssl"
version = "0.1.0"
edition = "2021"
publish = false

[dependencies]
dashmap = "=5.5.3"
uuid = { version = "=1.27.0", features = ["v4"] }
rustls = "=0.21.12"
rustls-pemfile = "=1.0.4"
tokio = { version = "1", features = ["full"] }
tokio-rustls = "=0.24.1"
hyper = { version = "1", features = ["full"] }
hyper-util = { version = "0.1", features = ["full"] }
http-body-util = "0.1"
serde = { version = "1", features = ["derive"] }
serde_json = "1"
anyhow = "1"
tracing = "0.1"
tracing-subscriber = { version = "0.3", features = ["env-filter", "json"] }

[dev-dependencies]
rcgen = "0.12"
