[package]
name = "isoland"
version = "0.1.0"
edition = "2021"
publish = false

[dependencies]
rand = "0.8"
log = "0.4"
spin_sleep = "1"
pixels = "*"
winit = "*"
winit_input_helper = "*"
