[package]
name = "create_thumbnail"
version = "0.1.0"
edition = "2021"
publish = false

[dependencies]
clap = { version = "4", features = ["derive"] }
image = { version = "0.25", default-features = false, features = ["gif", "jpeg", "png", "tiff", "webp"] }
