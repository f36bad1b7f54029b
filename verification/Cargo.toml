[package]
name = "helpv"
version = "0.1.0"
edition = "2021"
publish = false

[dependencies]
anyhow = "*"
clap = { version = "*", features = ["derive"] }
crossterm = "*"
dirs = "*"
nucleo = "*"
ratatui = "*"
regex = "*"
serde = { version = "*", features = ["derive"] }
toml = "*"
