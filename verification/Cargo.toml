[package]
name = "rustboy"
version = "0.1.0"
edition = "2021"
publish = false

[dependencies]
rand = "0.8"
zip = { version = "0.6", default-features = false, features = ["deflate"] }
sdl2 = "0.35"
