[package]
name = "brep_kernel"
version = "0.1.0"
edition = "2021"
publish = false

[dependencies]
fj-math = "0.20.0"
fj-interop = "0.20.0"
nalgebra = "*"
