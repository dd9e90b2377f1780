[package]
name = "credential_check"
version = "0.1.0"
edition = "2021"

[dependencies]
argon2 = "0.5"
csv = "1"
