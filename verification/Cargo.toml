[package]
name = "array"
version = "0.1.0"
edition = "2021"

[dependencies]
bitvec = "1"
