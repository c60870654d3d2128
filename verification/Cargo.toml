[package]
name = "rawbit"
version = "0.1.0"
edition = "2021"
publish = false

[dependencies]
chrono = "0.4"
rawler = "*"
clap = { version = "4", features = ["derive"] }
