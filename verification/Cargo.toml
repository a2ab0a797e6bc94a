[package]
name = "jsync"
version = "0.1.0"
edition = "2021"
publish = false

[dependencies]
log = "=0.4.34"
regex = "=1.13.1"
serde = { version = "=1.0.229", features = ["derive"] }
serde_json = "=1.0.154"
tokio = { version = "=1.54.1", features = ["io-util", "macros", "process", "rt-multi-thread", "sync", "time"] }
