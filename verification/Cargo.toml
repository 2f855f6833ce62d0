[package]
name = "reimu"
version = "0.1.0"
edition = "2021"
publish = false

[dependencies]
anyhow = "1"
egui_sdl2_gl = "0.16"
rand = "0.8"
