[package]
name = "bim_viewer"
version = "0.1.0"
edition = "2021"
publish = false

[dependencies]
bevy = { version = "0.9", default-features = false, features = ["bevy_asset", "bevy_scene", "bevy_winit", "render", "png", "x11"] }
bevy_atmosphere = "0.5"
bevy-inspector-egui = { version = "0.14", default-features = false }
bevy_mod_picking = "0.11"
rand = "0.8"
