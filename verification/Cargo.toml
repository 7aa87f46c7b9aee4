[package]
name = "sparticles"
version = "0.1.0"
edition = "2021"
publish = false

[dependencies]
bytemuck = "*"
serde = { version = "=1.0.229", features = ["derive"] }
serde_json = "=1.0.151"
