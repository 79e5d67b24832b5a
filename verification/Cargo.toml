[package]
name = "web_ui"
version = "0.1.0"
edition = "2021"
publish = false

[dependencies]
url = "=2.5.8"
hmac = "=0.12.1"
sha2 = "=0.10.9"
getrandom = "=0.3.4"
uuid = { version = "=1.29.0", features = ["v4"] }
image = { version = "=0.25.10", default-features = false, features = ["png", "jpeg", "gif", "webp"] }
axum = { version = "=0.8.9", features = ["multipart"] }
tokio = { version = "=1.54.1", features = ["rt-multi-thread", "macros", "sync", "fs"] }
tokio-stream = "0.1"
tower = "=0.5.3"
reqwest = { version = "0.12", default-features = false }
serde = { version = "=1.0.229", features = ["derive"] }
serde_json = "=1.0.154"
tracing = "=0.1.44"
chrono = "=0.4.45"
anyhow = "=1.0.104"
dirs = "=7.0.0"
