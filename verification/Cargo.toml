[package]
name = "chakra_context"
version = "0.1.0"
edition = "2021"
publish = false

[dependencies]
anymap = "0.12"
chakracore-sys = "*"
error-chain = "*"
libc = "0.2"
