[package]
name = "asset_pipeline"
version = "0.1.0"
edition = "2021"
publish = false

[dependencies]
sha2 = "0.10"
hex = "0.4"
base64 = "0.22"
urlencoding = "2"
mime_guess = "2"
image = { version = "0.25", default-features = false, features = ["png", "jpeg", "gif", "bmp", "webp"] }
fast_image_resize = { version = "5", features = ["image"] }
threadpool = "1"
num_cpus = "1"
