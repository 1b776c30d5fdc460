[package]
name = "obfuse"
version = "0.1.0"
edition = "2021"
publish = false

[dependencies]
aes-gcm = "0.10"
chacha20poly1305 = "0.10"
getrandom = "0.2"
rand = "0.8"
rand_chacha = "0.3"
zeroize = "1"
proc-macro2 = "1"
quote = "1"
syn = "2"
