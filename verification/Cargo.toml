[package]
name = "botkit"
version = "0.1.0"
edition = "2021"

[dependencies]
nalgebra = "=0.35.0"
