[package]
name = "league_registry"
version = "0.1.0"
edition = "2021"
publish = false

[dependencies]
concordium-std = "*"
concordium-cis2 = "*"
