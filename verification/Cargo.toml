[package]
name = "gemini_server"
version = "0.1.0"
edition = "2021"
publish = false

[dependencies]
rustls = "=0.19.1"
url = "=2.5.8"

[dev-dependencies]
webpki = "=0.21.4"
