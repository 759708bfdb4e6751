[package]
name = "brainstorm"
version = "0.1.0"
edition = "2021"
publish = false

[dependencies]
pleco = "*"
dashmap = "*"
rayon = "*"
ndarray = "*"
tch = "*"
