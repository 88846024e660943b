[package]
name = "lark_channels"
version = "0.1.0"
edition = "2021"
publish = false

[dependencies]
anyhow = "*"
async-trait = "*"
tokio = { version = "*", features = ["sync"] }
