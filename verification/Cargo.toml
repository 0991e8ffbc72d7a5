[package]
name = "zenith"
version = "0.1.0"
edition = "2021"
publish = false

[dependencies]
chrono = "*"
uuid = { version = "*", features = ["v4"] }
rusqlite = { version = "*", features = ["bundled"] }
directories = "*"
ratatui = "*"
crossterm = "*"
