[package]
name = "aws_console_tui"
version = "0.1.0"
edition = "2021"
publish = false

[dependencies]
anyhow = "*"
aws-config = "*"
aws-sdk-cloudwatchlogs = "*"
aws-sdk-sts = "*"
clap = { version = "*", features = ["cargo"] }
crossterm = { version = "*", features = ["event-stream"] }
directories = "*"
figment = { version = "*", default-features = false, features = ["toml"] }
futures = "*"
ratatui = "*"
serde = { version = "*", features = ["derive"] }
sysinfo = { version = "*", default-features = false, features = ["system"] }
tokio = { version = "*", features = ["macros", "rt-multi-thread", "sync", "time"] }
tokio-util = "*"
tracing = "*"
tracing-appender = "*"
tracing-subscriber = "*"
