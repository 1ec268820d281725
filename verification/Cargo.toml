[package]
name = "gol"
version = "0.1.0"
edition = "2021"
publish = false

[dependencies]
rand = "0.8"
wgpu = "25"
winit = "0.30"
pollster = "0.4"
anyhow = "1"
log = "0.4"
bytemuck = { version = "1", features = ["derive"] }
