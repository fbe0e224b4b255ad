[package]
name = "luminance_surfman"
version = "0.1.0"
edition = "2021"
publish = false

[dependencies]
euclid = "=0.20.14"
luminance = "=0.43.2"
luminance-glow = "=0.1.0"
surfman = { version = "=0.4.4", features = ["sm-winit"] }
thiserror = "=1.0.69"
winit = "=0.24.0"
