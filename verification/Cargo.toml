[package]
name = "copilot_bridge"
version = "0.1.0"
edition = "2021"
publish = false

[dependencies]
serde_json = { version = "1", features = ["preserve_order"] }
serde_yaml = "0.9"
base64 = "0.22"
http = "1"
url = "2"
chrono = { version = "0.4", default-features = false, features = ["clock"] }
bytes = "1"
serde = { version = "1", features = ["derive"] }
reqwest = { version = "0.12", default-features = false, features = ["rustls-tls"] }
tokio = { version = "1", features = ["rt", "sync", "time", "fs", "macros"] }
secrecy = "0.10"
anyhow = "1"
thiserror = "2"
