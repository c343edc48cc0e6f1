[package]
name = "gbemu"
version = "0.1.0"
edition = "2021"
publish = false

[dependencies]
clap = "4"
env_logger = "0.11"
log = "0.4"
winit = { version = "0.29", default-features = false, features = ["x11", "rwh_05"] }
