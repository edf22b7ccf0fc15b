[package]
name = "made-funicular-postzegel-io-router"
version = "0.1.0"
edition = "2021"
publish = false

[dependencies]
tokio = { version = "1", features = ["sync", "rt-multi-thread", "macros", "time"] }
dashmap = "6"
log = "0.4"
env_logger = "*"
clap = { version = "4", features = ["derive"] }
crossbeam-channel = "0.5"
futures = "0.3"
tonic = "*"
