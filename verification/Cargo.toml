[package]
name = "mqutekitty"
version = "0.1.0"
edition = "2021"
publish = false
