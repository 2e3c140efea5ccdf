[package]
name = "klang"
version = "0.1.0"
edition = "2021"
publish = false

[dependencies]
clap = { version = "4", features = ["derive"] }
nom = "7"
chumsky = "0.9"
