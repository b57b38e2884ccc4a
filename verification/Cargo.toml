[package]
name = "luminance_gl"
version = "0.1.0"
edition = "2021"
publish = false

[dependencies]
gl = "=0.14.0"
luminance = "=0.13.1"
