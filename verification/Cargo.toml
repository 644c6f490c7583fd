[package]
name = "fips_core"
version = "0.1.0"
edition = "2021"
publish = false

[dependencies]
cc = "*"
serde = { version = "*", features = ["derive"] }
toml = "*"
