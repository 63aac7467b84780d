[package]
name = "coord_core"
version = "0.1.0"
edition = "2021"
publish = false

[dependencies]
rayon = "*"
proc-macro2 = "*"
quote = "*"
syn = "*"
