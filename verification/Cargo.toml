[package]
name = "rustgl"
version = "0.1.0"
edition = "2021"
publish = false

[dependencies]
bytemuck = { version = "=1.25.2", features = ["derive"] }
env_logger = { version = "=0.11.11", default-features = false }
log = "=0.4.34"
nalgebra = { version = "=0.33.3", default-features = false, features = ["std"] }
wgpu = { version = "26", default-features = false, features = ["std", "wgsl", "vulkan"] }
winit = { version = "=0.29.15", default-features = false, features = ["rwh_06", "x11"] }
