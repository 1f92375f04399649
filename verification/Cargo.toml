[package]
name = "mechalicious_core"
version = "0.1.0"
edition = "2021"
publish = false

[dependencies]
arcow = "1.1"
env_logger = "0.11"
ftvf = "0.6"
nalgebra = "0.32"
rand = "0.8"
sdl2 = "0.37"
