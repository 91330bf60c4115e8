[package]
name = "pyree"
version = "0.1.0"
edition = "2021"
publish = false

[dependencies]
rosc = "=0.11.4"
bevy_rosc = "=0.9.0"
encase = "0.10"
bevy = { version = "=0.16.1", default-features = false, features = ["std", "bevy_asset", "bevy_render", "bevy_core_pipeline", "bevy_pbr"] }
