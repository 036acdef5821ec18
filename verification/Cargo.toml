[package]
name = "get_crate_manifest_path"
version = "0.1.0"
edition = "2021"
publish = false

[dependencies]
serde_json = "*"
