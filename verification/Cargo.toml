[package]
name = "wasm_snip"
version = "0.4.0"
edition = "2021"
publish = false

[dependencies]
regex = "1"
walrus = "*"
anyhow = "1"
clap = "2"
