[package]
name = "vn_text_trim"
version = "0.1.0"
edition = "2021"
publish = false

[dependencies]
regex = "1"
serde = "1"
serde_derive = "1"
toml = "0.8"
clap = "2"
