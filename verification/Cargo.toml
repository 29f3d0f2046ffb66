[package]
name = "smart_wallet"
version = "0.1.0"
edition = "2021"
publish = false

[dependencies]
anchor-lang = "0.24"
vipers = "2.0"
