[package]
name = "smartengine"
version = "0.1.0"
edition = "2021"
publish = false

[dependencies]
fluvio-smartmodule = "*"
fluvio-protocol = "*"
wasmedge-sdk = "*"
anyhow = "*"
