[package]
name = "debtmap_tui"
version = "0.1.0"
edition = "2021"
publish = false

[dependencies]
fuzzy-matcher = "0.3"
crossterm = "*"
ratatui = "*"
arboard = { version = "3", default-features = false }
anyhow = "1"
num_cpus = "1"
parking_lot = "*"
