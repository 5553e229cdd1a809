[package]
name = "sound_galaxy"
version = "0.1.0"
edition = "2021"
publish = false

[dependencies]
wgpu = "0.11"
winit = { version = "0.25", default-features = false, features = ["x11"] }
futures = "0.3"
