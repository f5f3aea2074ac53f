[package]
name = "runevm"
version = "0.1.0"
edition = "2021"
publish = false

[dependencies]
ewasm_api = "=0.11.0"
