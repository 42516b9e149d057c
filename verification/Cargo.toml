[package]
name = "glkit"
version = "0.1.0"
edition = "2021"
publish = false

[dependencies]
gl = "0.14"
image = { version = "0.24", default-features = false, features = ["png", "jpeg"] }
