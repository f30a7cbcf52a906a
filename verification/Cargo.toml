[package]
name = "goshenite"
version = "0.1.0"
edition = "2021"
publish = false

[dependencies]
anyhow = "1"
ash = "*"
bort-vk = "*"
glam = "*"
log = "*"
raw-window-handle = "*"
single_value_channel = "*"
winit = "*"
