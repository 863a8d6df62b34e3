[package]
name = "file_batch"
version = "0.1.0"
edition = "2021"
publish = false

[dependencies]
anyhow = "1"
clap = { version = "4", features = ["derive"] }
confy = "*"
env_logger = "*"
log = "0.4"
serde = { version = "1", features = ["derive"] }
serde_derive = "1"
