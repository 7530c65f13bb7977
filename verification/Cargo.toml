[package]
name = "band_noise"
version = "0.1.0"
edition = "2021"
publish = false

[dependencies]
cpal = "0.15"
rand = "0.9"
rustfft = "6"
