[package]
name = "ui_raster"
version = "0.1.0"
edition = "2021"
publish = false

[dependencies]
winit = "*"
softbuffer = "*"
glutin = "*"
raw-window-handle = "*"
