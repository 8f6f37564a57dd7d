[package]
name = "cubo"
version = "0.1.0"
edition = "2021"
publish = false

[dependencies]
bytemuck = { version = "1", features = ["derive"] }
cgmath = "0.18"
env_logger = "0.10"
image = "0.24"
pollster = "0.3"
wgpu = "0.17"
winit = "0.28"
