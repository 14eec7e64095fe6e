[package]
name = "vecquid"
version = "0.1.0"
edition = "2021"

[dependencies]
nalgebra = "*"
sdl2 = "*"
