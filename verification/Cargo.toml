[package]
name = "money_machine"
version = "0.1.0"
edition = "2021"
publish = false

[dependencies]
keepawake = "*"
keyring = "3"
