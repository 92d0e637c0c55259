[package]
name = "rust_tello_controller"
version = "0.1.0"
edition = "2021"
publish = false

[dependencies]
sdl2 = "=0.36.0"
tracing = "=0.1.44"
tracing-subscriber = "=0.3.23"
