[package]
name = "shellkit"
version = "0.1.0"
edition = "2021"
publish = false

[dependencies]
gio = "*"
gtk4 = "*"
gtk4-layer-shell = "*"
