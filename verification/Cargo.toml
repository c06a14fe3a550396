[package]
name = "st7789_platform"
version = "0.1.0"
edition = "2021"
publish = false

[dependencies]
anyhow = "1"
embedded-hal = "1"
embedded-svc = "*"
log = "0.4"
serde = { version = "1", features = ["derive"] }
serde_json = "1"
