[package]
name = "ls7366"
version = "0.1.0"
edition = "2021"
publish = false

[dependencies]
embedded-hal = "0.2"
rppal = { version = "0.11", features = ["hal"] }
