[package]
name = "git-rsl"
version = "0.1.0"
edition = "2021"
publish = false

[dependencies]
git2 = { version = "=0.21.0", default-features = false, features = ["cred"] }
