[package]
name = "rust2go_cli"
version = "0.1.0"
edition = "2021"
publish = false

[dependencies]
cbindgen = { version = "=0.29.4", default-features = false }
clap = { version = "=4.6.7", features = ["derive"] }
rust2go-common = "=0.3.12"
