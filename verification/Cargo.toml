[package]
name = "tunnel_client"
version = "0.1.0"
edition = "2021"
publish = false

[dependencies]
anyhow = "1"
http = "1"
log = "0.4"
parking_lot = "0.12"
tokio = { version = "1", features = ["macros", "rt-multi-thread", "signal", "time"] }
tokio-rustls = "0.26"
url = "2"
