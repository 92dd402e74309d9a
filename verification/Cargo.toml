[package]
name = "tower_hyper"
version = "0.1.0"
edition = "2021"
publish = false

[dependencies]
futures = "0.1"
http = "0.1"
hyper = "0.12"
tokio-buf = "0.1"
tower-service = "0.2"
