[package]
name = "x86_tables"
version = "0.1.0"
edition = "2021"
publish = false

[dependencies]
spin = "*"
lazy_static = "*"
