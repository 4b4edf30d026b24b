[package]
name = "c_const"
version = "0.1.0"
edition = "2021"
publish = false

[dependencies]
itertools = "0.13"
pyo3 = { version = "0.22", features = ["abi3-py38"] }
