[package]
name = "bbc_b"
version = "0.1.0"
edition = "2021"
publish = false
