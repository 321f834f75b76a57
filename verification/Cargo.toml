[package]
name = "bevy_winit"
version = "0.1.0"
edition = "2021"
publish = false

[dependencies]
winit = { version = "0.29", default-features = false, features = ["x11"] }
approx = "0.5"
