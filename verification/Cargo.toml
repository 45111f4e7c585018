[package]
name = "repliagent_mongodb"
version = "0.1.0"
edition = "2021"
publish = false

[dependencies]
regex = "=1.13.1"
serde_json = { version = "=1.0.151", features = ["preserve_order"] }
serde = { version = "=1.0.229", features = ["derive"] }
serde_yaml = "=0.9.34"
clap = { version = "=4.6.7", features = ["derive"] }
mongodb = { version = "=3.9.1", features = ["sync"] }
