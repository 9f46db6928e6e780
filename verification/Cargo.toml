[package]
name = "oort_api"
version = "0.1.0"
edition = "2021"
publish = false

[dev-dependencies]
oorandom = "11"
