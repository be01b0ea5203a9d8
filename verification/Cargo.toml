[package]
name = "pxtally"
version = "0.1.0"
edition = "2021"
publish = false

[dependencies]
clap = { version = "4", features = ["derive"] }
color = "*"
image = "0.25"
language-tags = "0.3"
rust-i18n = "3"
serde = { version = "1", features = ["derive"] }
serde_json = "1"
sys-locale = "0.3"
