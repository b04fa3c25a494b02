[package]
name = "sqleibniz"
version = "0.1.0"
edition = "2021"
publish = false

[dependencies]
lsp-server = "*"
lsp-types = "*"
mlua = { version = "*", features = ["lua54", "vendored"] }
serde = "*"
serde_json = "*"
