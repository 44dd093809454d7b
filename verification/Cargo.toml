[package]
name = "deuterium"
version = "0.1.0"
edition = "2021"
publish = false

[dependencies]
approx = "0.5"
nalgebra = "0.32"
pyo3 = { version = "0.20", features = ["extension-module", "abi3-py37"] }
