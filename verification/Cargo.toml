[package]
name = "wasi_fetch"
version = "0.2.0"
edition = "2021"
publish = false

[dependencies]
http = "=1.5.0"
url = "=2.5.8"
serde = { version = "=1.0.229", features = ["derive"] }
serde_json = "=1.0.154"
bytes = "=1.12.1"
http-body = "=1.1.0"
futures = "=0.3.34"
wasip3 = { version = "=0.7.1", features = ["http-compat"] }
