[package]
name = "rusty_game"
version = "0.1.0"
edition = "2021"
publish = false

[dependencies]
rand = "0.8"
uuid = { version = "1", features = ["v4"] }
tokio = { version = "1", features = ["rt-multi-thread", "macros", "sync", "time"] }
tonic = { version = "0.9", default-features = false }
log = "0.4"
env_logger = "0.10"
