[package]
name = "post_process_pass"
version = "0.1.0"
edition = "2021"
publish = false

[dependencies]
bevy = { version = "=0.16.1", default-features = false, features = ["std", "async_executor", "bevy_asset", "bevy_core_pipeline", "bevy_gltf", "bevy_pbr", "bevy_render", "bevy_scene", "bevy_ui", "bevy_window", "multi_threaded", "png", "tonemapping_luts"] }

[dev-dependencies]
naga = { version = "=24.0.0", features = ["wgsl-in"] }
