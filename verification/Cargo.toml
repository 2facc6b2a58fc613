[package]
name = "transaction_pool_error"
version = "0.1.0"
edition = "2021"
publish = false

[dependencies]
sp-runtime = "*"
thiserror = "*"
