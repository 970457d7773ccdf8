[package]
name = "limero"
version = "0.1.0"
edition = "2021"
publish = false

[dependencies]
tokio = { version = "1", features = ["sync", "macros", "rt", "rt-multi-thread", "time"] }
log = "0.4"
env_logger = "*"
chrono = "0.4"
