[package]
name = "state_sync"
version = "0.1.0"
edition = "2021"
publish = false

[dependencies]
anyhow = "*"
futures = "*"
tokio = { version = "*", features = ["rt-multi-thread", "time"] }
