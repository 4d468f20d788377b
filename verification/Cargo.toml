[package]
name = "dark_instruments"
version = "0.1.0"
edition = "2021"
publish = false

[dependencies]
which = "*"
md-5 = "*"
rand = "*"
subprocess = "*"
image = { version = "*", default-features = false, features = ["png"] }
rusty-tesseract = "*"
