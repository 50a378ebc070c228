[package]
name = "auction_app_backend"
version = "0.1.0"
edition = "2021"
publish = false

[dependencies]
candid = "0.10"
ic-cdk = "0.17"
ic-stable-structures = "0.6"
serde = { version = "1", features = ["derive"] }
