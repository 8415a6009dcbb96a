[package]
name = "porsmo"
version = "0.3.2"
edition = "2021"
publish = false

[dependencies]
toml = "=0.8.23"
clap = { version = "=4.6.7", features = ["derive"] }
crossterm = "=0.29.0"
dirs = "=7.0.0"
notify-rust = "=4.18.2"
rodio = "=0.23.0"
thiserror = "=2.0.21"
