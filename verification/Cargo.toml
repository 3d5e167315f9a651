[package]
name = "bevy_renderdoc_capture"
version = "0.1.0"
edition = "2021"
publish = false

[dependencies]
bevy = { version = "0.15", default-features = false, features = ["bevy_render"] }
renderdoc = "0.12"
