[package]
name = "skus"
version = "0.1.0"
edition = "2021"
publish = false

[dependencies]
http = "*"
serde_json = "1"
