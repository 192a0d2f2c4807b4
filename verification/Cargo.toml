[package]
name = "picopi"
version = "0.1.0"
edition = "2021"
publish = false

[dependencies]
heapless = "0.6"
sdl2 = "0.35"
