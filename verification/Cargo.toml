[package]
name = "discover"
version = "0.1.0"
edition = "2021"
publish = false

[dependencies]
mdns-sd = "*"
if-addrs = "*"
tokio = { version = "1", features = ["time"] }
tracing = "0.1"
