[package]
name = "attester"
version = "0.1.0"
edition = "2021"
publish = false

[dependencies]
anyhow = "1"
az-tdx-vtpm = "*"
clap = { version = "4", features = ["derive"] }
hex = "0.4"
kbs-types = "*"
serde = { version = "1", features = ["derive"] }
serde_json = "1"
