[package]
name = "mangadex"
version = "0.1.0"
edition = "2021"
publish = false

[dependencies]
chrono = { version = "0.4", features = ["serde"] }
derive_builder = "0.10"
reqwest = { version = "0.11", features = ["json", "multipart"] }
serde = { version = "1", features = ["derive"] }
serde_json = "1"
serde_qs = "0.8"
serde_with = "1"
thiserror = "1"
url = "2"
uuid = { version = "0.8", features = ["serde"] }
