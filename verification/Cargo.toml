[package]
name = "sliding_door"
version = "0.1.0"
edition = "2021"
publish = false

[dependencies]
interpolation = "*"
