[package]
name = "lioqing"
version = "0.1.0"
edition = "2021"
publish = false

[dependencies]
chrono = "0.4"
wgpu = "24"
winit = "0.30"
bytemuck = "1"
futures = "0.3"
log = "0.4"
env_logger = "0.11"
