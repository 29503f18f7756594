[package]
name = "shellshop"
version = "0.1.0"
edition = "2021"
publish = false

[dependencies]
anyhow = "=1.0.104"
bytes = "=1.12.1"
crossterm = "=0.28.1"
ratatui = "=0.29.0"
rand = "=0.10.3"
russh = "=0.65.1"
tokio = { version = "=1.54.1", features = ["full"] }
