[package]
name = "menu_auth"
version = "0.1.0"
edition = "2021"
publish = false

[dependencies]
biscuit-auth = "*"
argon2 = "*"

[dev-dependencies]
hex = "*"
