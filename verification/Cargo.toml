[package]
name = "dister"
version = "0.1.0"
edition = "2021"

[dependencies]
toml = "0.5"
