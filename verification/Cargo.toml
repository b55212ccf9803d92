[package]
name = "tc"
version = "0.1.0"
edition = "2021"
publish = false

[dependencies]
glob = "*"
tokenizers = { version = "*", features = ["http"] }
clap = { version = "*", features = ["derive"] }
