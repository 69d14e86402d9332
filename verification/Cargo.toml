[package]
name = "git-at"
version = "0.1.0"
edition = "2021"
publish = false

[dependencies]
clap = { version = "2.34", default-features = false }
git2 = { version = "*", default-features = false }
pcre2 = "*"

[dev-dependencies]
tempfile = "3"
