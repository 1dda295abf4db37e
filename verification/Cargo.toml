[package]
name = "blocky_material"
version = "0.1.0"
edition = "2021"
publish = false

[dependencies]
bevy = { version = "0.8", default-features = false, features = ["bevy_asset", "bevy_winit", "render", "png", "x11", "filesystem_watcher"] }
