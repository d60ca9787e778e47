[package]
name = "rclone_automount"
version = "0.1.0"
edition = "2021"
publish = false

[dependencies]
serde = { version = "1", features = ["derive"] }
toml = "*"
tokio = { version = "1", features = ["rt-multi-thread", "macros", "process", "signal", "fs", "sync"] }
tracing = "*"
tracing-subscriber = "*"
