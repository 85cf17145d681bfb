[package]
name = "bevy_audio_controller"
version = "0.1.0"
edition = "2021"
publish = false

[dependencies]
bevy = { version = "0.15", default-features = false, features = ["bevy_asset", "bevy_audio"] }
hashbrown = "0.14"
