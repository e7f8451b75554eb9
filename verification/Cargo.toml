[package]
name = "l1x_ft"
version = "0.1.0"
edition = "2021"
publish = false

[dependencies]
borsh = "=0.9.3"
l1x-sdk = "=0.3.2"
serde = { version = "=1.0.229", features = ["derive"] }
