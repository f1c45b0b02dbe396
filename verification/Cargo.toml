[package]
name = "svc_telemetry"
version = "0.1.0"
edition = "2021"
publish = false

[dependencies]
axum = "=0.8.9"
axum-extra = { version = "*", features = ["cookie"] }
deadpool-redis = "=0.23.1"
jsonwebtoken = { version = "=11.1.0", features = ["rust_crypto"] }
lapin = "=4.12.0"
rand = "=0.10.3"
serde = { version = "=1.0.229", features = ["derive"] }
serde_json = "=1.0.151"
tokio = { version = "=1.53.2", features = ["rt-multi-thread", "macros", "signal", "sync", "time"] }
