[package]
name = "zodgen"
version = "0.1.0"
edition = "2021"
publish = false

[dependencies]
rustdoc-types = "*"
serde_json = "*"
