[package]
name = "amtf_engine"
version = "0.1.0"
edition = "2021"
publish = false

[dependencies]
cgmath = "=0.18.0"
egui_sdl2_gl = { version = "=0.33.2", default-features = false }
gl = "=0.14.0"
image = "=0.25.10"
sdl2 = "=0.38.0"
tobj = "=4.0.5"
