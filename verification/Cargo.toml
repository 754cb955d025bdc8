[package]
name = "docx_paragraph"
version = "0.1.0"
edition = "2021"
publish = false

[dependencies]
docx-rs = "*"
wasm-bindgen = "*"
