[package]
name = "dodge_rl"
version = "0.1.0"
edition = "2021"
publish = false

[dependencies]
base64 = "=0.22.1"
serde = { version = "=1.0.229", features = ["derive"] }
serde_json = "=1.0.154"
rand = "=0.8.8"
tokio = { version = "=1.54.1", features = ["full"] }
axum = "=0.7.9"
tower-http = { version = "=0.6.11", features = ["cors"] }
bevy = { version = "=0.15.3", default-features = false, features = ["bevy_pbr", "bevy_ui", "bevy_text", "bevy_core_pipeline", "bevy_render", "bevy_asset", "bevy_window", "default_font"] }
