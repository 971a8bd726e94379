[package]
name = "mailcore"
version = "0.1.0"
edition = "2021"
publish = false

[dependencies]
mailparse = "*"
imap = "*"
native-tls = "*"
clap = { version = "*", features = ["derive"] }
dialoguer = "*"
anyhow = "*"
