[package]
name = "gstwebsink"
version = "0.1.0"
edition = "2021"
publish = false

[dependencies]
anyhow = "1"
axum = "0.6"
bytes = "1"
clap = { version = "4", features = ["derive"] }
failure = "0.1"
gstreamer = "0.23"
gstreamer-base = "0.23"
local-ip-address = "0.6"
mime_guess = "2"
once_cell = "1"
rust-embed = "8"
serde = { version = "1", features = ["derive"] }
serde_json = "1"
tokio = { version = "1", features = ["full"] }
tower-http = { version = "0.4", features = ["fs"] }
uuid = { version = "1", features = ["v4"] }
warp = "0.3"
webrtc = "0.11"
