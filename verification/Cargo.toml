[package]
name = "xhci"
version = "0.1.0"
edition = "2021"
publish = false

[dependencies]
accessor = "0.3"
bit_field = "0.10"
