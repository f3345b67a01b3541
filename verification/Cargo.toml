[package]
name = "cv-convert"
version = "0.1.0"
edition = "2021"
publish = false

[dependencies]
anyhow = "1"
image = { version = "0.24", default-features = false }
opencv = { version = "*", default-features = false }
