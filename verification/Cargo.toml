[package]
name = "mqtt_client"
version = "0.1.0"
edition = "2021"
publish = false

[dependencies]
heapless = "0.8"
embassy-time = { version = "*", features = ["std"] }
embassy-net = { version = "*", features = ["tcp", "proto-ipv4", "medium-ethernet"] }
embedded-io-async = "*"
futures = { version = "0.3", default-features = false }
