[package]
name = "tuas_boussinesq_solver"
version = "0.1.0"
edition = "2021"
publish = false

[dependencies]
uom = "0.36"
ndarray = "0.15"
peroxide = "*"
roots = "0.0.8"

[dev-dependencies]
approx = "0.5"
