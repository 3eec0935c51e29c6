[package]
name = "transform_gizmo"
version = "0.1.0"
edition = "2021"
publish = false

[dependencies]
ecolor = "*"
egui = "*"
emath = "*"
enumset = "*"
glam = "*"
mint = "*"
