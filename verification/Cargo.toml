[package]
name = "flex_forum"
version = "0.1.0"
edition = "2021"
publish = false

[dependencies]
rand = "0.8"
chrono = "0.4"
argon2 = "0.5"
validator = "0.16"
