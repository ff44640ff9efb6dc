[package]
name = "fee_router"
version = "0.1.0"
edition = "2021"
publish = false

[dependencies]
anchor-lang = "=0.32.2"
anchor-spl = "=0.32.2"
streamflow-sdk = { version = "=0.15.0", features = ["cpi"] }
