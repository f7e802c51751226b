[package]
name = "sprite_motion"
version = "0.1.0"
edition = "2021"
publish = false

[dependencies]
agb = "0.13"
bare-metal = "1"
