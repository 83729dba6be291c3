[package]
name = "fractal_renderer"
version = "0.1.0"
edition = "2021"
publish = false

[dependencies]
ndarray = "*"
colorgrad = "0.6"
serde = { version = "1", features = ["derive"] }
toml = "*"
image = "*"
video-rs = "*"
indicatif = "*"
rayon = "*"
