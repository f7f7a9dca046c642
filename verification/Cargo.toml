[package]
name = "method_resolution"
version = "0.1.0"
edition = "2021"
publish = false

[dependencies]
itertools = "0.14"
rustc-hash = "2.1"
