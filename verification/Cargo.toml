[package]
name = "helion_core"
version = "0.1.0"
edition = "2021"
publish = false

[dependencies]
bytemuck = { version = "1", features = ["derive"] }
wgpu = "22"
winit = "0.30"
pollster = "0.3"
log = "0.4"
env_logger = "0.11"
