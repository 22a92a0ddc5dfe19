[package]
name = "game_detector"
version = "0.1.0"
edition = "2021"
publish = false

[dependencies]
anyhow = "1"
dirs = "*"
flate2 = "1"
home = "0.5"
procfs = "*"
regex = "1"
registry = "1"
reqwest = "*"
serde = { version = "1", features = ["derive"] }
serde_json = "1"
sqlite = "*"
vdf-reader = "*"
