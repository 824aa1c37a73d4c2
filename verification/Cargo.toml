[package]
name = "vk_relay"
version = "0.1.0"
edition = "2021"
publish = false

[dependencies]
secret-toolkit = { version = "*", default-features = false, features = ["snip20"] }
secret-cosmwasm-std = "*"
