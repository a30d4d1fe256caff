[package]
name = "gles_conv"
version = "0.1.0"
edition = "2021"
publish = false

[dependencies]
glow = "*"
wgpu-types = "*"
