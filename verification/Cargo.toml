[package]
name = "blame_browser"
version = "0.1.0"
edition = "2021"
publish = false

[dependencies]
crossterm = "0.25"
git2 = "*"
tui = "0.19"
