[package]
name = "gust_math"
version = "0.1.0"
edition = "2021"
publish = false

[dependencies]
glium = "0.34"
winit = "0.29"
smol_str = "0.2"
