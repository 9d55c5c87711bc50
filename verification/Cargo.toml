[package]
name = "pg_array_codec"
version = "0.1.0"
edition = "2021"
publish = false

[dependencies]
bytes = "1"
fallible-iterator = "0.2"
postgres-protocol = "0.6"
thin-vec = "0.2"
