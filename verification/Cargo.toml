[package]
name = "account_state"
version = "0.1.0"
edition = "2021"
publish = false

[dev-dependencies]
borsh = "*"
hex = "0.4"
