[package]
name = "cmx"
version = "0.1.0"
edition = "2021"
publish = false

[dependencies]
md5 = "*"
hex = "0.4"
chrono = "0.4"
indexmap = "2"
serde = { version = "1", features = ["derive"] }
toml = "*"
clap = { version = "4", features = ["derive"] }
anyhow = "1"
thiserror = "*"
colorimetry = "*"
