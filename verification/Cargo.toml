[package]
name = "dyntest"
version = "0.1.0"
edition = "2021"
publish = false

[dependencies]
globset = "0.4"
walkdir = "2"

[dev-dependencies]
tempfile = "3"
