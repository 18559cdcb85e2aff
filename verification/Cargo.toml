[package]
name = "rpi_egl"
version = "0.1.0"
edition = "2021"
publish = false

[dependencies]
egl = "=0.2.7"
videocore = "=0.1.3"
