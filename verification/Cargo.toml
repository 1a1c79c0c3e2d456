[package]
name = "giftopia"
version = "0.1.0"
edition = "2021"
publish = false

[dependencies]
gif = "0.10"
sdl2 = "0.32"
crossbeam = "0.3"
