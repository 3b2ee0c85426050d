[package]
name = "dodge_server"
version = "0.1.0"
edition = "2021"
publish = false

[dependencies]
fps_clock = "*"
