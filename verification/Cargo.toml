[package]
name = "zenbeasts"
version = "0.1.0"
edition = "2021"
publish = false

[dependencies]
anchor-lang = "=0.29.0"
anchor-spl = "=0.29.0"
mpl-token-metadata = "=4.1.2"
