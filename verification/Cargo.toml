[package]
name = "sitegen"
version = "0.1.0"
edition = "2021"
publish = false

[dependencies]
comrak = { version = "=0.35.0", default-features = false, features = ["syntect", "shortcodes"] }
indoc = "=2.0.8"
