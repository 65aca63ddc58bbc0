[package]
name = "spend_draft"
version = "0.1.0"
edition = "2021"
publish = false

[dependencies]
bitcoin = "0.30"
rust-ini = "0.19"
dirs = "3"
which = "4"
jsonrpc = "*"
tracing = "0.1"
