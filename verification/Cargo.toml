[package]
name = "wiev"
version = "0.1.0"
edition = "2021"
publish = false

[dependencies]
rand = "0.8"
sfml = "0.14"
magick_rust = "0.11"
