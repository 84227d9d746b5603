[package]
name = "report_server"
version = "0.1.0"
edition = "2021"
publish = false

[dependencies]
html-escape = "*"
tiny_http = "*"
clap = { version = "*", features = ["derive"] }
