[package]
name = "queue_alerts"
version = "0.1.0"
edition = "2021"
publish = false

[dependencies]
anyhow = "1"
env_logger = "0.7"
human-panic = "1.0"
log = "0.4"
serde = "1"
serde_derive = "1"
structopt = "0.3"
toml = "0.5"
