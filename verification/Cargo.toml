[package]
name = "clot"
version = "0.1.0"
edition = "2021"
publish = false

[dependencies]
yansi = "*"
