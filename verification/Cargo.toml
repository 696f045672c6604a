[package]
name = "thum"
version = "0.1.0"
edition = "2021"
publish = false

[dependencies]
anyhow = "=1.0.104"
embedded-sht3x = "=0.1.0"
esp-idf-svc = "=0.51.0"
log = "=0.4.35"
serde_json = "=1.0.154"
toml-cfg = "=0.2.0"
