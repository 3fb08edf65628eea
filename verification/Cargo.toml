[package]
name = "soroban_assembly"
version = "0.1.0"
edition = "2021"
publish = false

[dependencies]
soroban-env-host = "=20.3.0"

[dev-dependencies]
stellar-strkey = "=0.0.18"
