[package]
name = "fastjsonl"
version = "0.1.0"
edition = "2021"
publish = false

[dependencies]
serde_json = "*"
jsonschema = { version = "*", default-features = false }
arrow = { version = "*", default-features = false }
