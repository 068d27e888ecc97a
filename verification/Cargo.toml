[package]
name = "local_file_cache"
version = "0.1.0"
edition = "2021"
publish = false

[dependencies]
dirs = "*"

[dev-dependencies]
tempfile = "*"
rand = "*"
