[package]
name = "raylib"
version = "0.1.0"
edition = "2021"
publish = false

[dependencies]
image = "*"
overload = "*"
rayon = "*"

[dev-dependencies]
oorandom = "*"
