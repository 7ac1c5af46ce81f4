[package]
name = "fractal_zoom"
version = "0.1.0"
edition = "2021"
publish = false

[dependencies]
fixed = "1"
cordic = "0.1"
num-complex = "0.4"
num-traits = "0.2"
winit = "0.30"
wgpu = "25"
glam = "0.30"
bytemuck = { version = "1", features = ["derive"] }
futures = "0.3"
anyhow = "1"
rand = "0.9"
