[package]
name = "codeccomp"
version = "0.1.0"
edition = "2021"
publish = false

[dependencies]
anyhow = "*"
config = "*"
serde = "*"
serde_derive = "*"
