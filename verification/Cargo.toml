[package]
name = "rustpill"
version = "0.1.0"
edition = "2021"
publish = false

[dependencies]
anyhow = "1"
defmt-decoder = "1"
dotenvy = "=0.15.7"
rust-s3 = { version = "=0.35.1", default-features = false, features = ["sync-rustls-tls"] }
serde = { version = "=1.0.229", features = ["derive"] }
serde_json = "=1.0.154"
