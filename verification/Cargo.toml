[package]
name = "hello_wgpu"
version = "0.1.0"
edition = "2021"
publish = false

[dependencies]
wgpu = "0.12"
winit = "0.26"
pollster = "0.2"
