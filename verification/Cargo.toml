[package]
name = "duration_serde"
version = "0.1.0"
edition = "2021"
publish = false

[dependencies]
js_int = "*"
serde = "*"
