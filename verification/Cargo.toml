[package]
name = "render_core"
version = "0.1.0"
edition = "2021"
publish = false

[dependencies]
glam = "=0.29.3"
vulkano = "=0.35.2"
winit = "=0.30.13"
smallvec = "=1.16.2"
bytemuck = "=1.25.2"
