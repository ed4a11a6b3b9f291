[package]
name = "tls_server_hs"
version = "0.1.0"
edition = "2021"
publish = false

[dependencies]
webpki = { version = "0.22", features = ["alloc", "std"] }
