[package]
name = "vortex"
version = "0.1.0"
edition = "2021"
publish = false

[dependencies]
colorsys = "*"
image = "*"
itertools = "*"
rand = "*"
serde = { version = "*", features = ["derive"] }
serde_json = "*"
serde_repr = "*"
walkdir = "*"
