[package]
name = "nacl_core"
version = "0.1.0"
edition = "2021"
publish = false

[dependencies]
sodalite = "*"
base32 = "*"
getrandom = "*"
zeroize = "*"
libc = "*"
