[package]
name = "local_stt"
version = "0.1.0"
edition = "2021"
publish = false

[dependencies]
crc32fast = "*"
base64 = "*"
axum = { version = "*", features = ["ws"] }
tokio = { version = "*", features = ["full"] }
futures-util = "*"
serde = { version = "*", features = ["derive"] }
serde_json = "*"
tower-http = { version = "*", features = ["cors"] }
reqwest = { version = "*", default-features = false }
