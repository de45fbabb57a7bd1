[package]
name = "capstone_tricore"
version = "0.1.0"
edition = "2021"
publish = false

[dependencies]
capstone-sys = "*"
