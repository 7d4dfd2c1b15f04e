[package]
name = "trirect"
version = "0.1.0"
edition = "2021"
publish = false

[dependencies]
env_logger = "=0.11.11"
gleam = "=0.15.1"
glutin = "=0.29.1"
webrender = "=0.69.0"
