[package]
name = "ale"
version = "0.1.0"
edition = "2021"

[dependencies]
rayon = "1"
tempdir = "0.3"
