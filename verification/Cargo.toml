[package]
name = "rolling_game"
version = "0.1.0"
edition = "2021"
publish = false

[dependencies]
bevy = { version = "0.8", default-features = false, features = ["bevy_winit", "render", "png", "x11"] }
bevy_rapier2d = { version = "0.16", features = ["debug-render"] }
leafwing-input-manager = "0.6"
