[package]
name = "toml_sorted"
version = "0.1.0"
edition = "2021"
publish = false

[dependencies]
structopt = "0.3"
toml = { version = "0.5", features = ["preserve_order"] }
