[package]
name = "cqrs-postgres"
version = "0.1.0"
edition = "2021"
publish = false

[dependencies]
fallible-iterator = "0.1"
log = "0.4"
postgres = "0.14"
serde = "1"
serde_json = "1"
