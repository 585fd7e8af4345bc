[package]
name = "sandbase"
version = "0.1.0"
edition = "2021"
publish = false

[dependencies]
bevy = { version = "0.10", default-features = false, features = ["bevy_asset", "bevy_core_pipeline", "bevy_render", "bevy_sprite", "bevy_text", "bevy_ui", "bevy_winit", "x11"] }
bytemuck = { version = "1", features = ["extern_crate_alloc"] }
futures-lite = "1"
