[package]
name = "tectflow"
version = "0.1.0"
edition = "2021"
publish = false

[dependencies]
ash = { version = "=0.38.0", features = ["linked"] }
ash-window = "=0.13.0"
env_logger = "=0.11.11"
imgui = "=0.12.0"
imgui-winit-support = "=0.13.0"
log = "=0.4.34"
winit = "=0.30.13"
