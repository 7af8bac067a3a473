[package]
name = "worker_unit"
version = "0.1.0"
edition = "2021"
publish = false

[dependencies]
futures = "0.3"
url = "2"
