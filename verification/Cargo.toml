[package]
name = "arena_actors"
version = "0.1.0"
edition = "2021"
publish = false

[dependencies]
bevy = { version = "0.15", default-features = false, features = ["bevy_sprite", "bevy_winit", "multi_threaded", "png", "x11"] }
bevy_framepace = { version = "0.18", default-features = false }
