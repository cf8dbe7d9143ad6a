[package]
name = "forker"
version = "0.1.0"
edition = "2021"
publish = false

[dependencies]
alloy-primitives = "*"
alloy-sol-types = "*"
eyre = "*"
foundry-evm = "*"
revm = "*"
tokio = { version = "*", features = ["rt-multi-thread", "macros"] }
