[package]
name = "file_relay"
version = "0.1.0"
edition = "2021"
publish = false

[dependencies]
async-trait = "=0.1.92"
axum = { version = "=0.6.20", features = ["multipart"] }
futures = "=0.3.34"
jiff = { version = "=0.2.38", default-features = false, features = ["std"] }
reqwest = { version = "=0.11.27", default-features = false, features = ["stream", "rustls-tls"] }
rusty-s3 = "=0.10.2"
tokio = { version = "=1.54.1", features = ["full"] }
tokio-util = { version = "=0.7.20", features = ["io", "compat"] }
url = "=2.5.8"
