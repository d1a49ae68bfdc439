[package]
name = "pinterest"
version = "0.1.0"
edition = "2021"
publish = false

[dependencies]
oauth2 = "1"
url = "1"
hyper = "0.11"
futures = "0.1"
tokio-core = "0.1"
