[package]
name = "fretboard"
version = "0.1.0"
edition = "2021"
publish = false

[dependencies]
bevy = { version = "=0.16.1", default-features = false, features = ["bevy_render", "bevy_sprite", "bevy_text", "bevy_winit", "bevy_core_pipeline", "bevy_mesh_picking_backend", "default_font", "x11"] }
