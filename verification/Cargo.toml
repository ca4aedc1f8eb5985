[package]
name = "static_file_server"
version = "0.1.0"
edition = "2021"
publish = false

[dependencies]
gotham = "0.2"
gotham_derive = "0.2"
hyper = "0.11"
mime = "0.3"
serde = "1"
serde_derive = "1"
