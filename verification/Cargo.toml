[package]
name = "speedy2d"
version = "0.1.0"
edition = "2021"
publish = false

[dependencies]
glam = "*"
miniquad = "0.4"
