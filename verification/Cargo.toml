[package]
name = "novel_tui"
version = "0.1.0"
edition = "2021"
publish = false

[dependencies]
anyhow = "=1.0.104"
async-trait = "=0.1.92"
chrono = "0.4"
crossterm = "=0.28.1"
parse-book-source = "=0.7.0"
ratatui = { version = "=0.29.0", features = ["serde"] }
serde = { version = "=1.0.229", features = ["derive"] }
serde_json = "=1.0.154"
tokio = { version = "=1.54.1", features = ["rt-multi-thread", "macros", "sync", "time"] }
tokio-util = "=0.7.20"
tui-widget-list = "=0.13.3"
