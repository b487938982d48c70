[package]
name = "url_probe"
version = "0.1.0"
edition = "2021"
publish = false

[dependencies]
hyper = "0.10"
url = "1"
