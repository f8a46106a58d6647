[package]
name = "gifstream"
version = "0.1.0"
edition = "2021"
publish = false

[dependencies]
gif = "*"
hyper = { version = "0.14", features = ["full"] }
tokio = { version = "1", features = ["full"] }
tokio-stream = { version = "0.1", features = ["sync"] }
futures = "0.3"
pin-project = "1"
anyhow = "1"
cairo-rs = { version = "*", default-features = false }
freetype-rs = "*"
