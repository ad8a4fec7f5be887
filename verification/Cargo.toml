[package]
name = "price_relay"
version = "0.1.0"
edition = "2021"
publish = false

[dependencies]
near-sdk = { version = "=5.29.1", features = ["non-contract-usage", "unit-testing"] }
borsh = "=1.8.1"
wee_alloc = "=0.4.5"
