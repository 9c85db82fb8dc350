[package]
name = "carbo"
version = "0.1.0"
edition = "2021"
publish = false

[dependencies]
miette = "7"
pollster = "0.4"
tracing = "0.1"
tracing-subscriber = { version = "0.3", features = ["env-filter"] }
vello = "0.5"
wgpu = "24"
winit = "0.30"
