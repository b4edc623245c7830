[package]
name = "intqual"
version = "0.1.0"
edition = "2021"
publish = false

[dependencies]
tokio = { version = "1", features = ["full"] }
tokio-util = "0.7"
socket2 = { version = "0.6", features = ["all"] }
reqwest = { version = "0.12", features = ["stream"] }
async-stream = "0.3"
bytes = "1"
clap = { version = "4", features = ["derive"] }
crossterm = "0.28"
ratatui = "0.29"
tui-big-text = "0.7"
dns-lookup = "2"
serde = { version = "1", features = ["derive"] }
serde_json = "1"
thiserror = "2"
tracing = "0.1"
tracing-appender = "0.2"
tracing-subscriber = { version = "0.3", features = ["env-filter"] }
