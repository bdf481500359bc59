[package]
name = "token_metadata"
version = "0.1.0"
edition = "2021"
publish = false

[dependencies]
redis = "0.25"
serde = { version = "1", features = ["derive"] }
serde_json = "1"
ureq = "2"
