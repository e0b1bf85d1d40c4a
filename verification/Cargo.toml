[package]
name = "stackcore"
version = "0.1.0"
edition = "2021"
publish = false

[dependencies]
leptos = { version = "0.4", features = ["csr"] }
uiua = { version = "*", default-features = false }
