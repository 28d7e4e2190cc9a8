[package]
name = "ris_engine"
version = "0.1.0"
edition = "2021"
publish = false

[dependencies]
ash = "0.37"
chrono = "0.4"
imgui = "0.12"
sdl2 = "0.35"
sdl2-sys = "0.35"
vulkano = "0.33"
