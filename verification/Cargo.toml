[package]
name = "pacseek"
version = "0.2.0"
edition = "2021"
publish = false

[dependencies]
regex = "1"
url = "2"
unicode-width = "0.2"
tui-input = "*"
crossterm = "*"
ratatui = "*"
clap = { version = "4.5", features = ["derive"] }
serde = { version = "1", features = ["derive"] }
serde_json = "1"
toml = "0.8"
anyhow = "1"
thiserror = "*"
reqwest = { version = "0.12", default-features = false, features = ["json", "blocking", "rustls-tls"] }
tokio = { version = "1", features = ["full"] }
colored = "2"
indicatif = "0.17"
tracing = "0.1"
tracing-subscriber = { version = "0.3", features = ["env-filter"] }
color-eyre = "0.6"
dirs = "5"
nix = { version = "0.29", features = ["user"] }
signal-hook = "0.3"
alpm = "*"
pacmanconf = "*"
