[package]
name = "raygeom"
version = "0.1.0"
edition = "2021"
publish = false

[dependencies]
cgmath = "=0.18.0"

[dev-dependencies]
efloat = "=0.2.0"
