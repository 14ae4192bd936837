[package]
name = "image_api"
version = "0.1.0"
edition = "2021"
publish = false

[dependencies]
euclid = "=0.17.3"
serde = { version = "=1.0.229", features = ["derive", "rc"] }
