[package]
name = "testkit_backend"
version = "0.1.0"
edition = "2021"
publish = false

[dependencies]
neo4j = "*"
flume = "0.11"
log = "0.4"
