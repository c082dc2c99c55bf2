[package]
name = "raymarcher"
version = "0.1.0"
edition = "2021"
publish = false

[dependencies]
fast_inv_sqrt = "*"
minifb = "0.19"
ocl = "0.19"
