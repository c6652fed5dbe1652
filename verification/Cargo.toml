[package]
name = "rkik"
version = "0.1.0"
edition = "2021"
publish = false

[dependencies]
rkik-nts = "=1.4.0"
clap = { version = "=4.6.7", features = ["derive"] }
tokio = { version = "=1.54.1", features = ["rt-multi-thread", "macros"] }
chrono = "=0.4.45"
serde = { version = "=1.0.229", features = ["derive"] }
serde_json = "=1.0.154"
toml = "=0.8.23"
rsntp = "=4.1.2"
