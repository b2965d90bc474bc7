[package]
name = "fuzzor"
version = "0.1.0"
edition = "2021"
publish = false

[dependencies]
regex = "1"
tokio = { version = "1", features = ["full"] }
bollard = { version = "0.17", features = ["buildkit"] }
futures-util = "0.3"
clap = { version = "4", features = ["derive"] }
serde_yaml = "0.9"
async-trait = "0.1"
tempfile = "3"
log = "0.4"
