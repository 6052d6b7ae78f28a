[package]
name = "ezgl"
version = "0.1.0"
edition = "2021"
publish = false

[dependencies]
glow = "*"
glutin = "*"
raw-window-handle = "*"
winit = "*"
