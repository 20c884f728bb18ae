[package]
name = "rix"
version = "0.1.0"
edition = "2021"
publish = false

[dependencies]
futures = "0.1"
hyper = "0.12"
hyper-tls = "0.3"
quick-error = "1"
rand = "0.4"
serde = "1"
serde_derive = "1"
serde_json = "1"
urlencoding = "1"
