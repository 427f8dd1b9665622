[package]
name = "syrette"
version = "0.1.0"
edition = "2021"
publish = false

[dependencies]
ahash = "0.8"
linkme = "0.3"
once_cell = "1"
thiserror = "1"
async-trait = "0.1"
