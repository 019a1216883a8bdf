[package]
name = "librazer"
version = "0.1.0"
edition = "2021"
publish = false

[dependencies]
rand = "*"
anyhow = "*"
clap = { version = "*", features = ["derive"] }
clap-num = "*"
hidapi = "*"
