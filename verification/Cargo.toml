[package]
name = "cs_typegen"
version = "0.1.0"
edition = "2021"
publish = false

[dependencies]
uniffi_bindgen = "*"
