[package]
name = "render_core"
version = "0.1.0"
edition = "2021"
publish = false

[dependencies]
bytemuck = { version = "*", features = ["derive"] }
cgmath = "*"
env_logger = "*"
log = "*"
pollster = "*"
wgpu = "*"
winit = "*"
