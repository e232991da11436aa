[package]
name = "poit"
version = "0.1.0"
edition = "2021"
publish = false

[dependencies]
anyhow = "1"
clap = { version = "4", features = ["derive"] }
env_logger = "*"
glob = "*"
log = "*"
serde = { version = "1", features = ["derive"] }
serde_json = "1"
sevenz-rust = "*"
sha2 = "*"
version-compare = "*"
