[package]
name = "simdnoise"
version = "0.1.0"
edition = "2021"
publish = false

[dependencies]
simdeez = "*"
clap = { version = "4", features = ["derive"] }
minifb = "*"
