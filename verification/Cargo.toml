[package]
name = "lknpd"
version = "0.1.0"
edition = "2021"
publish = false

[dependencies]
anyhow = "=1.0.104"
calamine = { version = "=0.37.0", features = ["dates"] }
chrono = { version = "=0.4.45", features = ["serde"] }
clap = { version = "=4.6.7", features = ["derive"] }
cli-clipboard = "=0.4.0"
confy = "=2.0.0"
csv = "=1.4.0"
env_logger = "=0.11.11"
inquire = "=0.9.4"
log = "=0.4.34"
rand = "=0.8.8"
regex = "=1.13.1"
reqwest = { version = "=0.13.5", features = ["blocking", "json"] }
resolve-path = "=0.1.0"
serde = { version = "=1.0.229", features = ["derive"] }
serde_json = "=1.0.154"
thiserror = "=1.0.69"
