[package]
name = "auth_core"
version = "0.1.0"
edition = "2021"
publish = false

[dependencies]
chrono = { version = "0.4", default-features = false, features = ["clock"] }
google-authenticator = { version = "*", default-features = false }
rand = "0.8"
read_input = "*"
rust-argon2 = "*"
strum = "*"
strum_macros = "*"
