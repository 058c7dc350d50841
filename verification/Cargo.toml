[package]
name = "surface_lifecycle"
version = "0.1.0"
edition = "2021"
publish = false

[dependencies]
anyhow = "1"
fs-err = "2"
log = "0.4"
pollster = "0.2"
simplelog = "0.11"
wgpu = "0.12"
winit = "0.26"
