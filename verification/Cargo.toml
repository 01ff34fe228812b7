[package]
name = "vaal"
version = "0.1.0"
edition = "2021"

[dependencies]
deepviewrt = "*"
vaal-sys = "*"
