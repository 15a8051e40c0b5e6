[package]
name = "tgs_readline"
version = "0.1.0"
edition = "2021"
publish = false

[dependencies]
anyhow = "1"
crossterm = "0.27"
unicode-width = "0.1"
