[package]
name = "raymarch"
version = "0.1.0"
edition = "2021"
publish = false

[dependencies]
bytemuck = { version = "=1.25.2", features = ["derive"] }
fern = "=0.7.1"
glam = { version = "=0.30.10", features = ["bytemuck"] }
log = "=0.4.35"
microfft = "=0.6.0"
pollster = "=0.4.0"
thingbuf = "=0.1.6"
thiserror = "=2.0.21"
wgpu = { version = "25", default-features = false, features = ["wgsl", "vulkan"] }
winit = "=0.30.13"
