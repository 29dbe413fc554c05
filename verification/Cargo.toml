[package]
name = "rusty_roguelike"
version = "0.1.0"
edition = "2021"
publish = false

[dependencies]
rltk = { version = "=0.8.7", default-features = false, features = ["crossterm"] }
bevy_ecs = "=0.13.2"
serde = { version = "1", features = ["derive"] }
serde_json = "1"
lazy_static = "1"
