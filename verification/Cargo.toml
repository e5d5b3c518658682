[package]
name = "sprite_pass"
version = "0.1.0"
edition = "2021"
publish = false

[dependencies]
rayon = "1"
shrev = "1"
