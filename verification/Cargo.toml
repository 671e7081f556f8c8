[package]
name = "static_site_generator"
version = "0.1.0"
edition = "2021"
publish = false

[dependencies]
serde_json = "*"
fs_extra = "*"
