[package]
name = "watchbot"
version = "0.1.0"
edition = "2021"
publish = false

[dependencies]
clap = "2"
handlebars = "*"
md5 = "*"
serde = { version = "*", features = ["derive"] }
serde_json = "*"
ureq = "2"
