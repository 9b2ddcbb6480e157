[package]
name = "store_client"
version = "0.1.0"
edition = "2021"
publish = false

[dependencies]
futures = "=0.1.31"
hyper = "=0.11.27"
log = "0.4"
tokio-core = "=0.1.18"
