[package]
name = "vault_solver"
version = "0.1.0"
edition = "2021"
publish = false

[dependencies]
primitive-types = "*"
ethcontract = "*"
anyhow = "*"
futures = "*"
tracing = "*"
