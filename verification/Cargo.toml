[package]
name = "tachi"
version = "0.1.0"
edition = "2021"
publish = false

[dependencies]
anyhow = "1"
clap = { version = "4", features = ["derive"] }
serde_yaml_ng = "*"
tera = "1"
