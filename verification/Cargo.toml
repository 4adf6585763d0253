[package]
name = "bloxchat"
version = "0.1.0"
edition = "2021"
publish = false

[dependencies]
url = "=2.5.8"
reqwest = { version = "=0.13.5", default-features = false, features = ["blocking"] }
notify = "=8.2.0"
home = "=0.5.12"
serde = { version = "=1.0.229", features = ["derive"] }
serde_json = "=1.0.151"
anyhow = "=1.0.104"
rdev = "=0.5.3"
