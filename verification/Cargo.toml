[package]
name = "gloss"
version = "0.1.0"
edition = "2021"
publish = false

[dependencies]
const_soft_float = "=0.1.4"
rustc_apfloat = "=0.2.3"
gl = "=0.14.0"
glfw = "=0.63.0"
