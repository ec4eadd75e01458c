[package]
name = "skill_ledger"
version = "0.1.0"
edition = "2021"
publish = false

[dependencies]
candid = "=0.10.39"
ic-cdk = "=0.17.2"
ic-cdk-macros = "=0.17.2"
ic-ledger-types = "=0.14.0"
log = "0.4"
serde = { version = "1", features = ["derive"] }
