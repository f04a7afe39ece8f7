[package]
name = "git_profiles"
version = "0.1.0"
edition = "2021"
publish = false

[dependencies]
clap = { version = "4", features = ["derive"] }
comfy-table = "7"
rusqlite = { version = "*", features = ["bundled"] }
