[package]
name = "random_audit"
version = "0.1.0"
edition = "2021"
publish = false

[dependencies]
candid = "*"
ic-cdk = "*"
ic-llm = "*"
serde = { version = "*", features = ["derive"] }
