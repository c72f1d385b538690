[package]
name = "pixeledit"
version = "0.1.0"
edition = "2021"

[dependencies]
image = "0.24"
