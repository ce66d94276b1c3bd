[package]
name = "whatsapp_cloud"
version = "0.1.0"
edition = "2021"
publish = false

[dependencies]
serde = { version = "1", features = ["derive"] }
serde_json = "1"
thiserror = "1"
tokio = { version = "1", features = ["sync", "time", "fs", "io-util"] }
reqwest = { version = "0.12", features = ["json"] }
