[package]
name = "proxy_handshake"
version = "0.1.0"
edition = "2021"

[dependencies]
base64 = "0.22"
thiserror = "1"
tokio = { version = "1", features = ["io-util", "net"] }
