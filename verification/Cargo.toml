[package]
name = "rustls_verify"
version = "0.1.0"
edition = "2021"
publish = false

[dependencies]
ring = "0.16"
rustls-webpki = { version = "0.100", features = ["std"] }
