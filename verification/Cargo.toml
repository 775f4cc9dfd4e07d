[package]
name = "tower_survive"
version = "0.1.0"
edition = "2021"
publish = false

[dependencies]
ggez = "=0.5.1"

[dev-dependencies]
float_eq = "=1.0.1"
nalgebra = "=0.18.1"
