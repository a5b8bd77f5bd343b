[package]
name = "quack-rs"
version = "0.1.0"
edition = "2021"
publish = false

[dependencies]
libduckdb-sys = { version = "*", default-features = false, features = ["loadable-extension"] }
