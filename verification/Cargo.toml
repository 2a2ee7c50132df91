[package]
name = "bm"
version = "0.1.0"
edition = "2021"
publish = false

[dependencies]
anyhow = "1"
bytemuck = { version = "1", features = ["derive"] }
egui = "0.27"
egui-wgpu = { version = "0.27", default-features = false }
glam = "0.27"
image = { version = "0.24", default-features = false, features = ["png", "jpeg"] }
pollster = "0.3"
wgpu = { version = "0.19", default-features = false, features = ["wgsl"] }
