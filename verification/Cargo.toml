[package]
name = "spacetime"
version = "0.1.0"
edition = "2021"
publish = false

[dependencies]
anyhow = "*"
env_logger = "*"
glam = "*"
gltf = "*"
image = { version = "*", default-features = false, features = ["png"] }
log = "*"
winit = "*"
