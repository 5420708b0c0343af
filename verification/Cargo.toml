[package]
name = "level_fit"
version = "0.1.0"
edition = "2021"
publish = false

[dependencies]
bevy = { version = "0.15", default-features = false }
bevy_ecs_ldtk = "0.11"
bevy_rapier2d = "0.28"
