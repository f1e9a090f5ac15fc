[package]
name = "gcoin"
version = "0.1.0"
edition = "2021"
publish = false

[dependencies]
ripemd = "*"
openssl = "*"
pem = "*"
log = "*"
