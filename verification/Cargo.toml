[package]
name = "async_counter"
version = "0.1.0"
edition = "2021"
publish = false

[dependencies]
anyhow = "1"
crossterm = { version = "*", features = ["event-stream"] }
futures = "0.3"
ratatui = "*"
tokio = { version = "1", features = ["rt", "rt-multi-thread", "macros", "sync", "time"] }
