[package]
name = "socks_relay"
version = "0.1.0"
edition = "2021"
publish = false

[dependencies]
async-std = "1"
clap = "2"
failure = "0.1"
futures = "0.3"
serde = { version = "1", features = ["derive"] }
serde_json = "1"
tokio = { version = "0.2", features = ["full"] }
