[package]
name = "one_man"
version = "0.1.0"
edition = "2021"
publish = false

[dependencies]
rand = "0.8"
tetra = "0.5"
lazy_static = "1.4"
