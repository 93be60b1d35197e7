[package]
name = "meroalpha_terminal"
version = "0.1.0"
edition = "2021"
publish = false

[dependencies]
dirs = "*"
rusqlite = { version = "*", features = ["bundled"] }
serde_json = "1"
ureq = "2"
