[package]
name = "backseater"
version = "0.1.0"
edition = "2021"
publish = false

[dependencies]
raylib = "*"
serde = { version = "*", features = ["derive"] }
serde_json = "*"
num-format = "*"
