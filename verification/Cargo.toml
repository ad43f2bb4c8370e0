[package]
name = "maschine"
version = "0.1.0"
edition = "2021"
publish = false

[dependencies]
midly = "*"
hidapi = "*"
midir = "*"
serde = { version = "*", features = ["derive"] }
serde_json = "*"
dirs = "*"
