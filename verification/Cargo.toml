[package]
name = "oranda"
version = "0.1.0"
edition = "2021"
publish = false

[dependencies]
indexmap = "*"
url = "*"
toml_edit = "*"
serde = "*"
serde_json = "*"
serde_yaml = "*"
axoasset = { version = "*", default-features = false }
camino = "*"
