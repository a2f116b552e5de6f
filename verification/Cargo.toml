[package]
name = "swiftlet"
version = "0.1.0"
edition = "2021"
publish = false

[dependencies]
rustybuzz = "0.14"
nalgebra = "0.33"
