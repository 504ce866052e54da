[package]
name = "reqtrace"
version = "0.1.0"
edition = "2021"
publish = false

[dependencies]
anyhow = "*"
axum = "*"
time = { version = "*", features = ["formatting"] }
tokio = { version = "*", features = ["full"] }
tracing = "*"
tracing-subscriber = { version = "*", features = ["env-filter", "json", "time"] }
uuid = { version = "*", features = ["v4"] }
