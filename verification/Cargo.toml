[package]
name = "gprompt"
version = "0.1.0"
edition = "2021"
publish = false

[dependencies]
ansi_term = "=0.12.1"
dirs = "=7.0.0"
git2 = { version = "0.20", default-features = false }

[dev-dependencies]
tempfile = "=3.27.0"
