[package]
name = "image_export"
version = "0.1.0"
edition = "2021"
publish = false

[dependencies]
image = { version = "0.25", default-features = false, features = ["png", "exr"] }
bytemuck = "1"
