[package]
name = "irsc"
version = "0.1.0"
edition = "2021"
publish = false

[dependencies]
regex = "1"
linear-map = "1"
log = "0.4"
openssl = "0.10"
encoding = "0.2"
