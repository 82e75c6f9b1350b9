[package]
name = "scene_control"
version = "0.1.0"
edition = "2021"
publish = false

[dependencies]
bevy = { version = "=0.6.1", default-features = false, features = ["bevy_winit", "render", "png", "x11"] }
tracing = "=0.1.37"
tracing-attributes = "=0.1.23"
tracing-subscriber = "=0.3.16"
