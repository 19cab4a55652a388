[package]
name = "jadro"
version = "0.1.0"
edition = "2021"
publish = false

[dependencies]
bit_field = "=0.10.3"
lazy_static = "=1.5.1"
x86_64 = { version = "=0.14.13", default-features = false, features = ["instructions"] }
