[package]
name = "msghub"
version = "0.1.0"
edition = "2021"
publish = false

[dependencies]
tokio = { version = "1", default-features = false, features = ["sync", "net", "io-util", "rt", "macros"] }
log = "0.4"
env_logger = "0.11"
