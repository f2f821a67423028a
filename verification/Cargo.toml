[package]
name = "git_browser"
version = "0.1.0"
edition = "2021"
publish = false

[dependencies]
syntect = "*"
git2 = "*"
ratatui = "*"
crossterm = "*"
clap = { version = "*", features = ["derive"] }
two-face = "*"
tempfile = "*"
color-eyre = "*"
