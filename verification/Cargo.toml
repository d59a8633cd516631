[package]
name = "mux"
version = "0.1.0"
edition = "2021"
publish = false

[dependencies]
anyhow = "1"
portable-pty = "*"
termwiz = "*"
url = "2"
