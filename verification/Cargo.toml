[package]
name = "git_nav"
version = "0.1.0"
edition = "2021"
publish = false

[dependencies]
crossterm = "0.28"
ignore = "0.4"
ratatui = "0.29"
syntect = { version = "5", default-features = false, features = ["default-fancy"] }
