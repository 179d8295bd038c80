[package]
name = "render_core"
version = "0.1.0"
edition = "2021"
publish = false

[dependencies]
image = { version = "0.24", default-features = false, features = ["png", "jpeg"] }
wgpu = "0.14"
winit = { version = "0.27", default-features = false, features = ["x11"] }
cgmath = "0.18"
pollster = "0.2"
