[package]
name = "lens_undistort"
version = "0.1.0"
edition = "2021"
publish = false

[dependencies]
bytemuck = "*"
lazy_static = "*"
log = "*"
nalgebra = "*"
num-traits = "*"
parking_lot = "*"
pollster = "*"
rayon = "*"
wgpu = "*"
