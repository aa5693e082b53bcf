[package]
name = "hyperspeedcube"
version = "0.1.0"
edition = "2021"
publish = false

[dependencies]
png = "=0.17.16"
instant = "=0.1.13"
log = "=0.4.34"
pollster = "=0.3.0"
egui = { version = "=0.21.0", default-features = false }
egui-wgpu = { version = "=0.21.0", default-features = false }
egui-winit = { version = "=0.21.1", default-features = false }
wgpu = { version = "=0.15.1", default-features = false }
winit = { version = "=0.28.7", default-features = false, features = ["x11"] }
env_logger = { version = "0.10", default-features = false }
