[package]
name = "chip8"
version = "0.1.0"
edition = "2021"
publish = false

[dependencies]
anyhow = "1"
bytemuck = "1"
clap = { version = "3", default-features = false, features = ["std"] }
futures = "0.3"
rand = "0.8"
wgpu = "0.9"
winit = "0.25"
