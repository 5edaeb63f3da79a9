[package]
name = "self_update_extras"
version = "0.1.0"
edition = "2021"
publish = false

[dependencies]
self_update = "=0.44.0"
