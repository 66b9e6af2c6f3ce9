[package]
name = "platformer"
version = "0.1.0"
edition = "2021"
publish = false

[dependencies]
ggez = "0.5"
