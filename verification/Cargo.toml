[package]
name = "grinta"
version = "0.1.0"
edition = "2021"
publish = false

[dependencies]
base64 = "0.22"
chrono = "0.4"
rand = "0.8"
tauri-icns = "*"
url = "2"
keyring = { version = "3", default-features = false }
serde = { version = "1", features = ["derive"] }
tokio = { version = "1", features = ["sync", "rt-multi-thread", "macros", "time"] }
cocoa = "*"
objc = "*"
block = "*"
