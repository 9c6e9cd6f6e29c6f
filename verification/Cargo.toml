[package]
name = "canvas_server"
version = "0.1.0"
edition = "2021"
publish = false

[dependencies]
axum = { version = "0.8", features = ["ws"] }
base64 = "0.22"
dashmap = "6"
futures-util = "0.3"
png = "0.18"
serde = { version = "1", features = ["derive"] }
serde_json = "1"
tiny-skia = { version = "0.11", default-features = false, features = ["std", "simd"] }
tokio = { version = "1", features = ["full"] }
tower-http = { version = "0.6", features = ["fs", "trace"] }
tracing = "0.1"
tracing-subscriber = { version = "0.3", features = ["env-filter"] }
uuid = { version = "1", features = ["v4", "serde"] }
