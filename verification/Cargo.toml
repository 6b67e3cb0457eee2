[package]
name = "worker_host"
version = "0.1.0"
edition = "2021"
publish = false

[dependencies]
deno_core = "=0.47.1"
futures = "=0.3.34"
serde = { version = "=1.0.229", features = ["derive"] }
serde_json = "=1.0.154"
url = "=2.5.8"
