[package]
name = "badge_client"
version = "0.1.0"
edition = "2021"
publish = false

[dependencies]
anyhow = "1"
rocket = "0.5"
starknet = "0.2"
