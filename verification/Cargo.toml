[package]
name = "liana_gui"
version = "0.1.0"
edition = "2021"
publish = false

[dependencies]
hex = "0.4"
bitcoin = "0.32"
async-hwi = { version = "*", default-features = false }
