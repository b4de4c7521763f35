[package]
name = "pdf_text_diff"
version = "0.1.0"
edition = "2021"
publish = false

[dependencies]
console = "0.15"
pdf = "0.9"
similar = { version = "2", features = ["inline"] }
