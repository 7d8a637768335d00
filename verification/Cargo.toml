[package]
name = "rust_cad"
version = "0.1.0"
edition = "2021"
publish = false

[dependencies]
ogl33 = "0.2"
bytemuck = "1"
beryllium = "0.2"
