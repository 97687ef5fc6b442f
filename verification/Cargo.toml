[package]
name = "sd_proxy"
version = "0.1.0"
edition = "2021"
publish = false

[dependencies]
serde_json = "=1.0.151"
base64 = "=0.22.1"
multipart-2021 = "=0.19.0"
hyper = { version = "=0.14.32", features = ["full"] }
uuid = { version = "=1.27.0", features = ["v4"] }
axum = "=0.6.20"
tokio = { version = "=1.53.2", features = ["full"] }
clap = { version = "=4.6.7", features = ["derive"] }
anyhow = "=1.0.104"
