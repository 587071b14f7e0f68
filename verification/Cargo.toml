[package]
name = "easystreamer"
version = "0.1.0"
edition = "2021"
publish = false

[dependencies]
webrtc = "0.6"
tokio = { version = "1", features = ["full"] }
socket2 = { version = "0.4", features = ["all"] }
serde = { version = "1", features = ["derive"] }
serde_json = "1"
anyhow = "1"
axum = "0.6"
structopt = "0.3"
sysinfo = "0.29"
