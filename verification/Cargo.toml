[package]
name = "ssfs"
version = "0.1.0"
edition = "2021"
publish = false

[dependencies]
rustls-pemfile = "1"
rustls = "0.20"
actix-web = { version = "4", features = ["rustls"] }
actix-files = "0.6"
env_logger = "0.10"
