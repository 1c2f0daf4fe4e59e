[package]
name = "cancel"
version = "0.1.0"
edition = "2021"
publish = false

[dev-dependencies]
failure = { version = "0.1", default-features = false, features = ["std"] }
