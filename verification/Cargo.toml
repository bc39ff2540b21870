[package]
name = "blackmagic_camera_control"
version = "0.1.0"
edition = "2021"
publish = false

[dependencies]
serde = { version = "=1.0.229", features = ["derive"] }
serde_json = "=1.0.151"
fixed = "=1.31.0"
