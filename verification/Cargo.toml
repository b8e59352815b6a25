[package]
name = "rps"
version = "0.1.0"
edition = "2021"
publish = false

[dependencies]
alloy-primitives = "*"
alloy-sol-types = "*"
mini-alloc = "*"
stylus-sdk = "*"
