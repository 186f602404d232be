[package]
name = "synapse"
version = "0.1.0"
edition = "2021"
publish = false

[dependencies]
anyhow = "1"
arboard = "*"
bincode = "1"
bytes = "1"
clap = { version = "4", features = ["derive"] }
enigo = "*"
futures = "0.3"
hostname = "*"
mdns-sd = "*"
rdev = "*"
serde = { version = "1", features = ["derive"] }
tokio = { version = "1", features = ["full"] }
tokio-util = { version = "0.7", features = ["codec"] }
tracing = "0.1"
tracing-subscriber = { version = "0.3", features = ["env-filter"] }
