[package]
name = "avatar_pipeline"
version = "0.1.0"
edition = "2021"
publish = false

[dependencies]
obj-rs = "*"
cgmath = "=0.18.0"
rand = "=0.10.3"
serde = { version = "=1.0.229", features = ["derive"] }
serde_json = "=1.0.151"
