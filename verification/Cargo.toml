[package]
name = "scene_core"
version = "0.1.0"
edition = "2021"
publish = false

[dependencies]
anyhow = "1"
bytemuck = { version = "1", features = ["derive"] }
cgmath = "0.18"
env_logger = "0.10"
image = { version = "0.24", default-features = false, features = ["png", "jpeg"] }
tobj = { version = "3.2", features = ["async"] }
wgpu = "0.15"
winit = "0.28"
