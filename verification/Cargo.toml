[package]
name = "serde_python"
version = "0.1.0"
edition = "2021"
publish = false

[dependencies]
heck = "0.3"
serde = "1"
cpython = "0.7"
