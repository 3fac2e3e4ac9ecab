[package]
name = "windoge_pow"
version = "0.1.0"
edition = "2021"
publish = false

[dependencies]
candid = "0.10"
ciborium = "0.2"
ic-cdk = "0.17"
ic-cdk-timers = "0.11"
ic-management-canister-types = "*"
ic-stable-structures = "0.6"
num-traits = "0.2"
rapidhash = "1"
serde = { version = "1", features = ["derive"] }
serde_bytes = "0.11"
