[package]
name = "hal"
version = "0.1.0"
edition = "2021"
publish = false

[dependencies]
chrono = "0.4"
crossterm = "0.28"
dirs = "6"
glob = "0.3"
ignore = "0.4"
ratatui = "0.29"
regex = "1"
serde = { version = "1", features = ["derive"] }
serde_json = "1"
similar = "2"
syntect = { version = "5", default-features = false, features = ["default-fancy"] }
ureq = { version = "3", features = ["json"] }
