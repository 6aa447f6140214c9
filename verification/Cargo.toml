[package]
name = "rustynotes"
version = "0.4.0"
edition = "2021"
publish = false

[dependencies]
comrak = "*"
syntect = { version = "5", default-features = false, features = ["default-fancy"] }
regex = "1"
regex-lite = "*"
html-escape = "*"
semver = "1"
urlencoding = "2"
serde = { version = "1", features = ["derive"] }
serde_json = "1"
walkdir = "2"
dirs = "*"
uuid = { version = "1", features = ["v4"] }
notify = "*"
ureq = "3"
