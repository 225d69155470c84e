[package]
name = "cycle"
version = "0.1.0"
edition = "2021"
publish = false

[dependencies]
time = "*"
float-cmp = "*"
