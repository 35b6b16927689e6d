[package]
name = "repodb"
version = "0.1.0"
edition = "2021"
publish = false

[dependencies]
base64 = "0.13"
bytes = "1"
reqwest = "0.11"
serde = { version = "1", features = ["derive"] }
serde_json = "1"
url = "2"
