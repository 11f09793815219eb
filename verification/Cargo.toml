[package]
name = "audio_capture"
version = "0.1.0"
edition = "2021"
publish = false

[dependencies]
cpal = "0.15"
log = "0.4"
pretty_env_logger = "0.5"
serde = { version = "1", features = ["derive"] }
