[package]
name = "symmetric_key_exercise"
version = "0.1.0"
edition = "2021"
publish = false

[dependencies]
chacha20poly1305 = "*"
rand = "*"
clap = { version = "*", features = ["derive"] }
anyhow = "*"
thiserror = "*"
