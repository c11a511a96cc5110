[package]
name = "chdig"
version = "0.1.0"
edition = "2021"
publish = false

[dependencies]
size = "0.4"
cursive = { version = "0.20", default-features = false }
