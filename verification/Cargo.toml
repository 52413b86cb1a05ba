[package]
name = "invoice_store"
version = "0.1.0"
edition = "2021"
publish = false

[dependencies]
chrono = "0.4"
csv = "1"
serde = { version = "1", features = ["derive"] }
juniper = "*"
juniper_rocket = "*"
rocket = "*"
