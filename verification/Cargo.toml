[package]
name = "cargo-qc"
version = "0.6.6"
edition = "2021"
publish = false

[dependencies]
anyhow = "1"
owo-colors = "4"
time = { version = "0.3", features = ["local-offset"] }
