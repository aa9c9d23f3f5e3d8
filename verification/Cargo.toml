[package]
name = "wamr-rust-sdk"
version = "0.1.0"
edition = "2021"
publish = false

[dependencies]
wamr-sys = "*"
