[package]
name = "chip8"
version = "0.1.0"
edition = "2021"
publish = false

[dependencies]
rand = "=0.8.8"
log = "=0.4.34"
bevy = { version = "=0.15.3", default-features = false, features = ["bevy_window"] }
