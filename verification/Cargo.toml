[package]
name = "chainner_ext"
version = "0.1.0"
edition = "2021"
publish = false

[dependencies]
regex = "1"
ahash = "*"
glam = "*"
rstar = "*"
zhang_hilbert = "*"
rayon = "*"
resize = "*"
image = "*"
numpy = "*"
pyo3 = "*"
arboard = "*"
