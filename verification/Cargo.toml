[package]
name = "sniproxy"
version = "0.1.0"
edition = "2021"
publish = false

[dependencies]
rand = "0.8"
eyre = "0.6"
tokio = { version = "1", features = ["full"] }
hickory-resolver = "0.24"
