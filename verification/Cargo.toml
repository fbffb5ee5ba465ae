[package]
name = "rust_embedded_wgpu"
version = "0.1.0"
edition = "2021"
publish = false

[dependencies]
anyhow = "1"
bytemuck = { version = "1", features = ["derive"] }
drm = "0.14"
env_logger = "0.11"
evdev = "0.12"
log = "0.4"
pollster = "0.4"
tokio = { version = "1", features = ["macros", "rt", "signal", "sync", "time"] }
wgpu = "25"
