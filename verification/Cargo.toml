[package]
name = "text_boxes"
version = "0.1.0"
edition = "2021"
publish = false

[dependencies]
bevy = { version = "0.16", default-features = false, features = ["bevy_sprite", "bevy_text", "bevy_state"] }
