[package]
name = "cosmo"
version = "0.1.0"
edition = "2021"
publish = false

[dependencies]
unicode-segmentation = "*"
ratatui = "*"
crossterm = "*"
clap = { version = "*", features = ["derive"] }
