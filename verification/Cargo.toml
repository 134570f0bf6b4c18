[package]
name = "getitdone"
version = "0.1.0"
edition = "2021"
publish = false

[dependencies]
bson = { version = "=3.1.0", features = ["serde"] }
futures-util = "0.3"
hex = "=0.4.3"
mongodb = { version = "=3.9.1", default-features = false, features = ["compat-3-3-0", "bson-3", "rustls-tls"] }
opentelemetry = "=0.28.0"
serde = { version = "1", features = ["derive"] }
serde_json = "1"
thiserror = "2"
tokio = { version = "1", features = ["macros", "rt-multi-thread", "sync", "time"] }
tracing = "=0.1.44"
tracing-opentelemetry = "=0.29.0"
uuid = { version = "=1.29.0", features = ["v4"] }

[dev-dependencies]
opentelemetry_sdk = "=0.28.0"
tracing-subscriber = "0.3"
