[package]
name = "arcade_car_controller"
version = "0.1.0"
edition = "2021"
publish = false

[dependencies]
bevy = { version = "0.7", default-features = false }
heron = { version = "3", features = ["3d"] }
