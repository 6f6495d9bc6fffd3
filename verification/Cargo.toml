[package]
name = "nannou_draw"
version = "0.1.0"
edition = "2021"
publish = false

[dependencies]
uuid = { version = "=1.12.1", features = ["v4"] }
bevy = { version = "=0.15.3", default-features = false, features = ["bevy_asset", "bevy_color", "bevy_render", "bevy_core_pipeline", "bevy_pbr"] }
