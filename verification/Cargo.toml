[package]
name = "key_exchange"
version = "0.1.0"
edition = "2021"
publish = false

[dependencies]
aes = "=0.8.4"
num-bigint = "=0.4.8"
rand = "=0.8.8"
