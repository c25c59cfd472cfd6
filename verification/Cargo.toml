[package]
name = "lapin_futures"
version = "0.1.0"
edition = "2021"
publish = false

[dependencies]
amq-protocol = { version = "*", default-features = false }
