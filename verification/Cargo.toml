[package]
name = "faucet"
version = "0.1.0"
edition = "2021"
publish = false

[dependencies]
futures-util = "0.3"
