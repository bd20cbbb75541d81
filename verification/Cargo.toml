[package]
name = "vtuber_quiz"
version = "0.1.0"
edition = "2021"
publish = false

[dependencies]
rust-argon2 = "*"
rand = "0.8"
serde_json = "1"
