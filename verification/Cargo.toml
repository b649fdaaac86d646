[package]
name = "horn_service"
version = "0.1.0"
edition = "2021"
publish = false

[dependencies]
up-rust = "*"
tokio = { version = "*", features = ["rt-multi-thread", "macros", "sync", "time"] }
clap = { version = "*", features = ["derive", "env"] }
log = "*"
env_logger = "*"
http = "*"
async-trait = "*"
protobuf = "*"
prost-types = "*"
kuksa-rust-sdk = "*"
