[package]
name = "rustness"
version = "0.1.0"
edition = "2021"
publish = false

[dependencies]
byteorder = "1"
crossterm = "*"
hex = "0.4"
rand = "0.8"
sdl2 = "*"
