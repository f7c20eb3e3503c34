[package]
name = "rns_mavlink"
version = "0.1.0"
edition = "2021"
publish = false

[dependencies]
reticulum = "*"
tokio = { version = "*", features = ["full"] }
tokio-serial = "*"
serde = { version = "*", features = ["derive"] }
log = "*"
clap = { version = "*", features = ["derive"] }
env_logger = "*"
toml = "*"
