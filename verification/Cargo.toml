[package]
name = "solstice_backend"
version = "0.1.0"
edition = "2021"
publish = false

[dependencies]
log = "*"
plotters-backend = "*"
solstice-2d = "*"
