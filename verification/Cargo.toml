[package]
name = "saxrumfex"
version = "0.1.0"
edition = "2021"
publish = false

[dependencies]
bytemuck = "1"
env_logger = { version = "0.10", default-features = false }
nanorand = "0.7"
pico-args = "0.5"
pollster = "0.3"
wgpu = { version = "0.19", default-features = false, features = ["wgsl"] }
