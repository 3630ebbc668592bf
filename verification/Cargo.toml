[package]
name = "nonmax"
version = "0.5.5"
edition = "2021"
publish = false

[dependencies]
serde = "1"
