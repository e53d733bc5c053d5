[package]
name = "limbo_voice"
version = "0.1.0"
edition = "2021"
publish = false

[dev-dependencies]
hound = "*"
