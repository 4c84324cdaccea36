[package]
name = "scrob"
version = "0.1.0"
edition = "2021"
publish = false

[dependencies]
bcrypt = "*"
rand = "0.8"
hex = "0.4"
chrono = "0.4"
dotenvy = "*"
