[package]
name = "framegrab"
version = "0.1.0"
edition = "2021"
publish = false

[dependencies]
base64 = "=0.22.1"
image = { version = "=0.25.10", default-features = false, features = ["jpeg"] }
uuid = { version = "=1.29.0", features = ["v4"] }
ffmpeg-next = "=7.1.0"
serde = { version = "1", features = ["derive"] }
tokio = { version = "1", features = ["rt"] }
lazy_static = "1"
dirs = "=5.0.1"
reqwest = { version = "=0.12.28", default-features = false }
tauri = { version = "2", default-features = false }
