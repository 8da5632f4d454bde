[package]
name = "brush-kernel"
version = "0.1.0"
edition = "2021"
publish = false

[dependencies]
naga = { version = "=22.1.0", features = ["wgsl-in", "wgsl-out"] }
naga_oil = "=0.15.0"
bytemuck = "=1.25.2"
cubecl = "=0.2.0"
burn = { version = "=0.14.0", default-features = false, features = ["std"] }
burn-jit = { version = "=0.14.0", default-features = false, features = ["std"] }
anyhow = "=1.0.104"
glam = "=0.28.0"
zip = { version = "=2.6.1", default-features = false, features = ["deflate"] }
image = { version = "=0.25.10", default-features = false, features = ["png", "jpeg"] }
async-std = "=1.13.2"
async-fn-stream = "=0.2.2"
ndarray = "=0.16.1"
