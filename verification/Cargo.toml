[package]
name = "reisbase"
version = "0.1.0"
edition = "2021"

[dependencies]
arboard = { version = "3", default-features = false }
