[package]
name = "pyvirtualcam_core"
version = "0.15.0"
edition = "2021"
publish = false

[dependencies]
libc = "0.2"
pyo3 = "0.22"
numpy = "0.22"
