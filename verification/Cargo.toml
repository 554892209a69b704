[package]
name = "angle_out"
version = "0.1.0"
edition = "2021"
publish = false

[dependencies]
bevy = { version = "=0.9.1", default-features = false, features = ["bevy_asset", "bevy_scene", "render"] }
bevy_hanabi = { version = "0.5", default-features = false, features = ["3d"] }
bevy_rapier3d = "=0.20.0"
rand = "=0.8.8"
