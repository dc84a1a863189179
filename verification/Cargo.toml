[package]
name = "multikeylock"
version = "0.1.0"
edition = "2021"
publish = false

[dependencies]
dashmap = "*"
tokio = { version = "*", features = ["rt", "rt-multi-thread", "time", "sync", "macros"] }
tokio-util = "*"
