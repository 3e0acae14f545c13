[package]
name = "server_launcher"
version = "0.1.0"
edition = "2021"
publish = false

[dependencies]
crossterm = "0.27"
ratatui = "0.26"
rusqlite = { version = "0.31", features = ["bundled"] }
