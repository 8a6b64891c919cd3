[package]
name = "json_guard"
version = "0.1.0"
edition = "2021"
publish = false

[dependencies]
rocket = { version = "0.5", default-features = false }
serde = "=1.0.229"
serde_json = "=1.0.154"
validator = "=0.21.0"
