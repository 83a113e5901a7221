[package]
name = "bevy_malek_async"
version = "0.1.0"
edition = "2021"
publish = false

[dependencies]
bevy_app = "0.17"
bevy_ecs = "0.17"
bevy_platform = "0.17"
crossbeam = "0.8"
