[package]
name = "tile_render"
version = "0.1.0"
edition = "2021"
publish = false

[dependencies]
lodepng = "*"
png = "*"
rustc-serialize = "*"
