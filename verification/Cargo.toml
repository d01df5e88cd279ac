[package]
name = "raw_develop"
version = "0.1.0"
edition = "2021"
publish = false

[dependencies]
anyhow = "=1.0.104"
image = { version = "=0.25.10", default-features = false }
rawler = "=0.7.2"
rayon = "=1.12.0"
serde_json = "=1.0.154"
