[package]
name = "bevy_button_transitions"
version = "0.1.0"
edition = "2021"
publish = false

[dependencies]
bevy_app = { version = "0.15", default-features = false }
bevy_asset = { version = "0.15", default-features = false }
bevy_color = { version = "0.15", default-features = false }
bevy_derive = { version = "0.15" }
bevy_ecs = { version = "0.15", default-features = false }
bevy_image = { version = "0.15", default-features = false }
bevy_ui = { version = "0.15", default-features = false }
