[package]
name = "mailstrom"
version = "0.1.0"
edition = "2021"
publish = false

[dependencies]
email-format = "*"
uuid = { version = "*", features = ["v4"] }
resolv = "*"
