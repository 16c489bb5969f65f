[package]
name = "minter"
version = "0.1.0"
edition = "2021"
publish = false

[dependencies]
candid = "*"
ic-cdk = "*"
ic-cdk-timers = "*"
icrc-ledger-types = "*"
serde = { version = "1", features = ["derive"] }
