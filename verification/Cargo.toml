[package]
name = "nenarwia"
version = "0.1.0"
edition = "2021"
publish = false

[dependencies]
ab_glyph = "0.2"
bytemuck = { version = "1", features = ["derive"] }
log = "0.4"
wgpu = "*"
winit = "0.30"
