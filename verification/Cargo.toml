[package]
name = "email_pass"
version = "0.1.0"
edition = "2021"
publish = false

[dependencies]
bcrypt = "*"
zxcvbn = "2"
serde = "*"
