[package]
name = "codlet"
version = "0.1.0"
edition = "2021"
publish = false

[dependencies]
hmac = "0.13"
sha2 = "0.11"
subtle = "=2.6.1"
serde = { version = "=1.0.229", features = ["derive"] }
thiserror = "=1.0.69"
