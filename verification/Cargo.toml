[package]
name = "lazyenv"
version = "0.1.0"
edition = "2021"
publish = false

[dependencies]
serde_json = "1"
dirs = "5"
crossterm = "0.27"
ratatui = "0.26"
