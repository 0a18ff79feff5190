[package]
name = "lsp_overlays"
version = "0.1.0"
edition = "2021"
publish = false

[dependencies]
anyhow = "1"
lsp-types = { version = "0.97", features = ["proposed"] }
ropey = "2.0.0-beta.1"
