[package]
name = "tracer"
version = "0.1.0"
edition = "2021"
publish = false

[dependencies]
image = "*"
rayon = "*"
toml = "*"
serde = "*"
serde_derive = "*"
