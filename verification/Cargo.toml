[package]
name = "polyfps"
version = "0.1.0"
edition = "2021"
publish = false

[dependencies]
bevy_ecs = "*"
glium = "*"
glium_derive = "*"
nalgebra = "*"
raylib = "*"
