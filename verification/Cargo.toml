[package]
name = "banana_lib"
version = "0.1.0"
edition = "2021"
publish = false

[dependencies]
glam = "0.24"
ndarray = "0.15"
rand = "0.8"
serde = { version = "1", features = ["derive"] }
