[package]
name = "blueprint_core"
version = "0.1.0"
edition = "2021"
publish = false

[dependencies]
serde_json = "1"
base64 = "0.22"
chrono = "0.4"
reqwest = { version = "0.12", default-features = false, features = ["blocking", "json", "multipart"] }
rusqlite = { version = "0.37", features = ["bundled"] }
