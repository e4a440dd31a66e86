[package]
name = "did"
version = "0.1.0"
edition = "2021"
publish = false

[dependencies]
chrono = "*"
dirs = "*"
rusqlite = { version = "*", features = ["bundled"] }
