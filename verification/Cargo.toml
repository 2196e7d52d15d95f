[package]
name = "restic_manager"
version = "0.1.0"
edition = "2021"
publish = false

[dependencies]
chrono = "=0.4.45"
cron = "=0.15.0"
dirs = "=6.0.0"
serde = { version = "=1.0.229", features = ["derive"] }
serde_json = "=1.0.154"
serde_yaml = "=0.9.34"
tokio = { version = "=1.54.1", features = ["rt-multi-thread", "macros", "signal", "sync", "time"] }
reqwest = { version = "=0.12.28", default-features = false, features = ["rustls-tls"] }
tracing = "=0.1.44"
tracing-subscriber = { version = "=0.3.23", features = ["env-filter"] }
ratatui = "=0.29.0"
crossterm = "=0.28.1"
strsim = "=0.11.1"

[dev-dependencies]
clap = "=4.6.7"
