[package]
name = "lazydb"
version = "0.1.0"
edition = "2021"
publish = false

[dependencies]
arboard = { version = "=3.6.1", default-features = false }
chrono = "=0.4.45"
clap = { version = "=4.6.7", features = ["derive"] }
color-eyre = "=0.6.5"
crossterm = "=0.29.0"
ratatui = "=0.30.2"
tokio = { version = "=1.53.2", features = ["full"] }
tokio-postgres = { version = "=0.7.18", features = ["with-chrono-0_4"] }
