[package]
name = "epp_client"
version = "0.1.0"
edition = "2021"
publish = false

[dependencies]
celes = "=2.8.2"
tokio = { version = "=1.45.1", default-features = false, features = ["io-util", "net", "rt", "sync", "time"] }
