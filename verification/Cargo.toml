[package]
name = "fscan"
version = "0.1.0"
edition = "2021"
publish = false

[dependencies]
chrono = "0.4"
clap = { version = "*", features = ["derive"] }
hex = "0.4"
md5 = "*"
unix_mode = "*"
users = "*"
walkdir = "2"
