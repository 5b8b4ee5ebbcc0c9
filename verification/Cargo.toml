[package]
name = "edifier"
version = "0.1.0"
edition = "2021"
publish = false

[dependencies]
hex = "0.4"
hmac = "0.12"
sha2 = "0.10"
serde = { version = "1", features = ["derive"] }
serde_json = "1"
clap = { version = "4", features = ["derive"] }
