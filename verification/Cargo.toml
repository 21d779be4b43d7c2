[package]
name = "crowbook"
version = "0.1.0"
edition = "2021"
publish = false

[dependencies]
crowbook-text-processing = "=0.2.8"
syntect = { version = "=5.3.0", default-features = false, features = ["default-fancy"] }
term = "=0.7.0"
