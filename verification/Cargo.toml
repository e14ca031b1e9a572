[package]
name = "raytracer"
version = "0.1.0"
edition = "2021"
publish = false

[dependencies]
bytemuck = { version = "1", features = ["derive"] }
futures = "0.3"
image = { version = "0.25", default-features = false, features = ["png"] }
rand = "0.9"
wgpu = "27"
