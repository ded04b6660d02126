[package]
name = "fluent_asserts"
version = "0.1.0"
edition = "2021"
publish = false

[dependencies]
pretty_assertions = "*"
