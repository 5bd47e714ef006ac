[package]
name = "vhost_device_sound"
version = "0.1.0"
edition = "2021"
publish = false

[dependencies]
clap = { version = "4.5", features = ["derive"] }
env_logger = "0.11"
