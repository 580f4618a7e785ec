[package]
name = "byte_me"
version = "0.1.0"
edition = "2021"
publish = false

[dependencies]
infer = "*"
ffprobe = "*"
serde = { version = "*", features = ["derive"] }
serde_json = "*"
