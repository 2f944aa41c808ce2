[package]
name = "yakou"
version = "0.1.0"
edition = "2021"
publish = false

[dependencies]
anstyle = "1"
ilog = "*"
lazy_static = "1"
