[package]
name = "podcast_dapp"
version = "0.1.0"
edition = "2021"
publish = false

[dependencies]
candid = "0.8"
ic-cdk = "0.8"
ic-cdk-macros = "0.6"
ic-ledger-types = "0.5"
serde = { version = "1", features = ["derive"] }
