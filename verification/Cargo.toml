[package]
name = "swiping_img"
version = "0.1.0"
edition = "2021"
publish = false

[dependencies]
image = "*"
ab_glyph = "*"
serde = { version = "*", features = ["derive"] }
serde_json = "*"
