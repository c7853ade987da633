[package]
name = "surface_backed"
version = "0.1.0"
edition = "2021"
publish = false

[dependencies]
takeable-option = "*"
