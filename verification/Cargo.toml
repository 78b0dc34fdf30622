[package]
name = "puty_proxy"
version = "0.1.0"
edition = "2021"
publish = false

[dependencies]
clap = { version = "4.5", features = ["derive"] }
dashmap = "5.5"
file-rotate = "0.7"
pin-project-lite = "0.2"
slog = "2.7"
slog-async = "2.8"
slog-term = "2.9"
tokio = { version = "1", features = ["full"] }
