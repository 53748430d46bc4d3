[package]
name = "maylib"
version = "0.1.0"
edition = "2021"
publish = false

[dependencies]
rand = "*"
sdl2 = { version = "*", features = ["image", "gfx"] }
rodio = "*"
open = "*"
lazy_static = "*"
fontdue-sdl2 = "*"
