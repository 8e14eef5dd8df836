[package]
name = "webhook_relay"
version = "0.1.0"
edition = "2021"
publish = false

[dependencies]
rust-crypto = "*"
actix-web = "*"
serde = { version = "*", features = ["derive"] }
toml = "*"
hmac = "*"
sha1 = "*"
