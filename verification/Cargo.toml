[package]
name = "opendal_reader"
version = "0.1.0"
edition = "2021"
publish = false

[dependencies]
opendal = "=0.47.3"
