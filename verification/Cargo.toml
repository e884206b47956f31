[package]
name = "danish_dictionary_parser"
version = "0.1.0"
edition = "2021"
publish = false

[dependencies]
anyhow = "*"
clap = { version = "*", features = ["derive"] }
fs-err = "*"
pdf = "*"
serde = { version = "*", features = ["derive"] }
serde_json = "*"
