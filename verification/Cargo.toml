[package]
name = "credential_issuer"
version = "0.1.0"
edition = "2021"
publish = false

[dependencies]
keri-core = "=0.16.0"
said = "=0.4.3"
teliox = "=0.16.0"

[dev-dependencies]
tempfile = "=3.27.0"
