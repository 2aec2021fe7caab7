[package]
name = "lingui_transform"
version = "0.1.0"
edition = "2021"
publish = false

[dependencies]
swc_core = { version = "*", features = ["common", "ecma_ast", "ecma_visit", "ecma_utils"] }
