[package]
name = "yasc_core"
version = "0.1.0"
edition = "2021"
publish = false

[dependencies]
futures = "=0.1.31"
bidir-map = "*"
image = "*"
cgmath = "*"
camera_controllers = "*"
piston_window = "*"
pistoncore-glutin_window = "*"
gfx = "*"
gfx_device_gl = "*"
piston2d-gfx_graphics = "*"
shader_version = "*"
tokio-threadpool = "0.1"
lazy_static = "*"
parking_lot = "*"
num-traits = "*"
