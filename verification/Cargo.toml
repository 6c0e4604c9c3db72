[package]
name = "engine_core"
version = "0.1.0"
edition = "2021"
publish = false

[dependencies]
env_logger = "0.11"
gilrs = "0.11"
log = "0.4"
once_cell = "1"
pollster = "0.4"
serde = { version = "1", features = ["derive"] }
serde_cbor = "0.11"
wgpu = "26"
winit = "0.30"
