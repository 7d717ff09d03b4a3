[package]
name = "mqtt2prom"
version = "0.1.0"
edition = "2021"
publish = false

[dependencies]
serde_json = "*"
serde = { version = "*", features = ["derive"] }
anyhow = "*"
axum = "*"
clap = { version = "*", features = ["derive", "env"] }
prometheus-client = "*"
rumqttc = "*"
tokio = { version = "*", features = ["macros", "rt-multi-thread", "time", "net"] }
tracing = "*"
tracing-subscriber = { version = "*", features = ["env-filter"] }
