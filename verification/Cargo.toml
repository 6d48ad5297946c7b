[package]
name = "hex_rs"
version = "0.1.0"
edition = "2021"
publish = false

[dependencies]
crossterm = "0.25"
directories = "4.0"
