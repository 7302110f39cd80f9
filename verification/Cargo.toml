[package]
name = "sunspec_gateway"
version = "0.1.0"
edition = "2021"
publish = false

[dependencies]
rand = "=0.8.8"
chrono = "=0.4.45"
serde = { version = "=1.0.229", features = ["derive"] }
serde_json = "=1.0.154"
serde_yaml = "=0.9.34"
tokio = { version = "=1.54.1", features = ["full"] }
rumqttc = "=0.25.1"
sunspec_rs = "=0.10.4"
anyhow = "=1.0.104"
thiserror = "=1.0.69"
tracing = "=0.1.44"
tracing-subscriber = "=0.3.23"
sqlx = { version = "=0.8.6", features = ["sqlite", "runtime-tokio"] }
futures = "=0.3.34"
