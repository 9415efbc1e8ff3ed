[package]
name = "hostbroker"
version = "0.1.0"
edition = "2021"
publish = false

[dependencies]
enigo = "*"
reqwest = { version = "*", default-features = false, features = ["blocking"] }
urlencoding = "*"
