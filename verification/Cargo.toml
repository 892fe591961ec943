[package]
name = "rucola"
version = "0.1.0"
edition = "2021"
publish = false

[dependencies]
crossterm = "0.28"
ratatui = { version = "0.29", default-features = false }
