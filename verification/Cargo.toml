[package]
name = "sonic_client"
version = "0.1.0"
edition = "2021"
publish = false

[dependencies]
sonic-channel = { version = "*", features = ["ingest", "control"] }
