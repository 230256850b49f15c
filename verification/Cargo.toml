[package]
name = "zarrs"
version = "0.1.0"
edition = "2021"
publish = false

[dependencies]
serde_json = "1"
thiserror = "1"
derive_more = "0.99"
async-trait = "0.1"
blosc-src = "*"
