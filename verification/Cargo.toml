[package]
name = "bb_control"
version = "0.1.0"
edition = "2021"
publish = false

[dependencies]
chrono = "*"
dirs = "*"
libc = "*"
reqwest = { version = "*", default-features = false, features = ["blocking"] }
semver = "*"
tungstenite = "*"
url = "*"
urlencoding = "*"
