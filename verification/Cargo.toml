[package]
name = "intus"
version = "0.1.0"
edition = "2021"
publish = false

[dependencies]
anyhow = "=1.0.104"
arboard = "=3.7.0"
chrono = "=0.4.45"
clap = { version = "=4.5.61", features = ["derive"] }
comrak = { version = "=0.59.0", default-features = false }
crossterm = "=0.28.1"
directories = "=6.0.0"
futures = "=0.3.34"
headless_chrome = { version = "=1.0.22", default-features = false }
html2text = "=0.17.4"
ignore = "=0.4.34"
ratatui = "=0.29.0"
regex = "=1.12.4"
reqwest = { version = "=0.12.28", features = ["json", "stream", "blocking"] }
serde = { version = "=1.0.229", features = ["derive"] }
serde_json = "=1.0.154"
sysinfo = "=0.37.2"
throbber-widgets-tui = "=0.8.0"
tokio = { version = "=1.53.3", features = ["full"] }
tokio-stream = "=0.1.19"
toml = "=0.8.23"
tracing = "=0.1.44"
tracing-subscriber = "=0.3.23"
tui-textarea = "=0.7.0"
