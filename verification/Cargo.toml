[package]
name = "luarc"
version = "0.1.0"
edition = "2021"
publish = false

[dependencies]
url = "2"
serde = { version = "1", features = ["derive"] }
serde_json = "1"
clap = { version = "4", features = ["derive"] }
dunce = "1"
env_logger = "0.11"
log = "0.4"
