[package]
name = "render"
version = "0.1.0"
edition = "2021"
publish = false

[dependencies]
glfw = "*"
nalgebra = "*"
specs = "*"
syn = { version = "1", features = ["full"] }
