[package]
name = "hermes"
version = "0.1.0"
edition = "2021"
publish = false

[dependencies]
chrono = "*"
env_logger = "*"
iron = "*"
logger = "*"
router = "*"
rustc-serialize = "*"
uuid = { version = "*", features = ["v4"] }
