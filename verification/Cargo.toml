[package]
name = "image_batch"
version = "0.1.0"
edition = "2021"
publish = false

[dependencies]
image = "=0.25.10"
imagequant = "=4.4.1"
lodepng = "=3.12.2"
oxipng = { version = "10", default-features = false, features = ["parallel"] }
rayon = "=1.12.0"
serde = { version = "=1.0.229", features = ["derive"] }
webp = "=0.3.1"
