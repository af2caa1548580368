[package]
name = "holodekk"
version = "0.1.0"
edition = "2021"
publish = false

[dependencies]
anyhow = "=1.0.104"
async-trait = "=0.1.92"
axum = "=0.6.20"
chrono = { version = "=0.4.45", features = ["serde"] }
clap = { version = "=4.6.7", features = ["derive"] }
etcd-client = "=0.11.1"
futures-util = "=0.3.34"
log = "=0.4.35"
nix = "=0.26.4"
serde = { version = "=1.0.229", features = ["derive"] }
serde_json = "=1.0.154"
thiserror = "=1.0.69"
tokio = { version = "=1.54.1", features = ["full"] }
tokio-stream = { version = "=0.1.19", features = ["net"] }
tonic = "=0.9.2"
uuid = { version = "=1.29.0", features = ["v4"] }
