[package]
name = "mini_gta"
version = "0.1.0"
edition = "2021"
publish = false

[dependencies]
rand = "=0.8.8"
bevy = { version = "=0.15.3", default-features = false, features = ["bevy_pbr", "bevy_core_pipeline", "bevy_render", "bevy_winit", "x11"] }
