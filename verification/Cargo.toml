[package]
name = "graphemex"
version = "0.1.0"
edition = "2021"
publish = false

[dependencies]
unicode-segmentation = "1"
rayon = "1"
pyo3 = "0.22"
