[package]
name = "editor_cameras"
version = "0.1.0"
edition = "2021"
publish = false

[dependencies]
bevy = { version = "=0.10.1", default-features = false, features = ["bevy_render", "bevy_core_pipeline", "bevy_ui", "bevy_sprite", "bevy_asset"] }
bevy-inspector-egui = { version = "0.18", default-features = false }
