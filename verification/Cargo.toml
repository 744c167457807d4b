[package]
name = "cool_material"
version = "0.1.0"
edition = "2021"
publish = false

[dependencies]
bevy = { version = "=0.8.1", default-features = false, features = ["render", "bevy_asset", "bevy_winit", "png", "x11"] }
bevy-inspector-egui = { version = "=0.12.1" }
encase = { version = "=0.3.0" }
