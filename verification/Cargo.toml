[package]
name = "engine"
version = "0.1.0"
edition = "2021"
publish = false

[dependencies]
cgmath = "0.17"
fbx3d = "0.1"
gl = "0.14"
glutin = "0.19"
if_chain = "1"
