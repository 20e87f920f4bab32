[package]
name = "shorty"
version = "0.1.0"
edition = "2021"
publish = false

[dependencies]
nanoid = "*"
url = "*"
redis = "*"
serde = "*"
serde_json = "*"
serde_derive = "*"
