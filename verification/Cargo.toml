[package]
name = "wsentry"
version = "0.2.0"
edition = "2021"
publish = false

[dependencies]
chrono = { version = "0.4", features = ["serde"] }
clap = { version = "4", features = ["derive"] }
color-eyre = "0.6"
crossterm = "0.28"
directories = "6"
humantime = "2"
listeners = "*"
ratatui = "0.29"
reqwest = { version = "0.12", default-features = false, features = ["rustls-tls"] }
serde = { version = "1", features = ["derive"] }
serde_json = "1"
sysinfo = "*"
thiserror = "2"
tokio = { version = "1", features = ["full"] }
toml = "*"
tracing-appender = "0.2"
tracing-subscriber = { version = "0.3", features = ["env-filter"] }
