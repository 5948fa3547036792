[package]
name = "mustui"
version = "0.1.0"
edition = "2021"
publish = false

[dependencies]
anyhow = "1"
crossterm = "*"
directories = "*"
image = { version = "*", default-features = false, features = ["png", "jpeg"] }
ratatui = "*"
reqwest = { version = "*", default-features = false }
rodio = "*"
serde = { version = "1", features = ["derive"] }
serde_json = "1"
thiserror = "*"
tokio = { version = "1", features = ["rt", "rt-multi-thread", "sync", "macros", "process", "fs"] }
tracing = "0.1"
tracing-appender = "0.2"
tracing-subscriber = { version = "0.3", features = ["env-filter"] }
