[package]
name = "paddleball"
version = "0.1.0"
edition = "2021"
publish = false

[dependencies]
bevy = { version = "0.11", default-features = false }
bevy_xpbd_2d = { version = "0.2", default-features = false, features = ["2d", "f32"] }
rand = "0.8"
