[package]
name = "payment_reconciliation"
version = "0.1.0"
edition = "2021"
publish = false

[dependencies]
serde = { version = "1.0", features = ["derive"] }
serde_json = "1.0"
serde_with = "3"
strum = { version = "0.26", features = ["derive"] }
