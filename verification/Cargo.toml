[package]
name = "nbody"
version = "0.1.0"
edition = "2021"
publish = false

[dependencies]
rand = "0.9"
rayon = "1"
wgpu = "*"
futures = "0.3"
futures-channel = "0.3"
