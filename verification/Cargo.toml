[package]
name = "gif_maker"
version = "0.1.0"
edition = "2021"
publish = false

[dependencies]
anyhow = "*"
clap = { version = "*", features = ["derive"] }
gif = "=0.14.2"
image = { version = "=0.25.10", default-features = false, features = ["png", "jpeg", "bmp", "gif", "tiff", "webp", "tga", "ico", "pnm", "qoi"] }
