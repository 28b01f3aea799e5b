[package]
name = "window_bridge"
version = "0.1.0"
edition = "2021"
publish = false

[dependencies]
neon = "*"
wry = "*"
tao = "*"
