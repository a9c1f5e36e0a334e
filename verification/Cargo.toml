[package]
name = "duners"
version = "0.1.0"
edition = "2021"
publish = false

[dependencies]
anyhow = "1"
clap = "4"
dirs = "*"
dotenvy = "0.15"
faster-hex = "*"
serde_json = "1"
shlex = "1"
ureq = { version = "3", features = ["json"] }
