[package]
name = "rli_decoder"
version = "0.1.0"
edition = "2021"
publish = false

[dependencies]
ecu_diagnostics = "*"
