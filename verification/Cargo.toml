[package]
name = "rust_engine"
version = "0.1.0"
edition = "2021"
publish = false

[dependencies]
typemap = "0.3.3"
ash = "0.32"
winit = "0.24"
