[package]
name = "contour_terrain"
version = "0.1.0"
edition = "2021"
publish = false

[dependencies]
noise = "0.4"
hlua = "0.4"
rustbox = "0.11"
