[package]
name = "star_chase"
version = "0.1.0"
edition = "2021"
publish = false

[dependencies]
rand = "=0.8.8"
bevy_time = { version = "0.13", default-features = false }
