[package]
name = "fluid_simulation"
version = "0.1.0"
edition = "2021"
publish = false

[dependencies]
bincode = "1.3"
bytemuck = { version = "1", features = ["derive"] }
cgmath = "0.18"
env_logger = { version = "0.11", default-features = false }
log = "0.4"
once_cell = "1"
pollster = "0.3"
serde = { version = "1", features = ["derive"] }
web-time = "1"
