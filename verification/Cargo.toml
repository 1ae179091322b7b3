[package]
name = "matrix_login"
version = "0.1.0"
edition = "2021"
publish = false

[dependencies]
url = "=2.5.8"
iced = { version = "=0.14.0", default-features = false, features = ["image", "tokio", "tiny-skia", "x11"] }
