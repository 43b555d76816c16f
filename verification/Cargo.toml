[package]
name = "ray_tracer_challenge"
version = "0.1.0"
edition = "2021"
publish = false

[dependencies]
image = "*"
rayon = "*"
