[package]
name = "gittop"
version = "0.1.0"
edition = "2021"
publish = false

[dependencies]
anyhow = "*"
chrono = "*"
clap = { version = "*", features = ["derive"] }
crossterm = "*"
git2 = { version = "*", default-features = false }
notify = "*"
ratatui = "*"
