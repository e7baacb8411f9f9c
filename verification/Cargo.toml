[package]
name = "bindata_cli"
version = "0.1.0"
edition = "2021"
publish = false

[dependencies]
bytes = "1"
clap = { version = "4", features = ["derive"] }
crossterm = "0.27"
indicatif = "0.17"
ratatui = "0.26"
serde_json = "1"
tokio = { version = "1", features = ["fs", "io-util", "macros", "rt-multi-thread", "sync"] }
