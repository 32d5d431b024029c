[package]
name = "ui_borders"
version = "0.1.0"
edition = "2021"
publish = false

[dependencies]
bevy = { version = "0.10", default-features = false, features = ["bevy_ui", "bevy_render"] }
