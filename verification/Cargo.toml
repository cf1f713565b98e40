[package]
name = "gitui"
version = "0.1.0"
edition = "2021"
publish = false

[dependencies]
git2 = "*"
crossterm = "*"
crossbeam-channel = "*"

[dev-dependencies]
tempfile = "*"
