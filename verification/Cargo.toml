[package]
name = "aspeed_ddk"
version = "0.1.0"
edition = "2021"
publish = false

[dependencies]
embedded-storage = "=0.3.2"
embedded-hal = "=1.0.0"
