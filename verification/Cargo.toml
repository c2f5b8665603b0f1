[package]
name = "handler_error"
version = "0.1.0"
edition = "2021"
publish = false

[dependencies]
hyper = "0.14"
anyhow = "1"
log = "0.4"
futures = "0.3"
pin-project = "1"
