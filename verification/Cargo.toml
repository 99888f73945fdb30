[package]
name = "extension_traits"
version = "0.1.0"
edition = "2021"
publish = false

[dependencies]
fancy-regex = "*"
itertools = "*"
regex = "*"
serde_json = "*"
