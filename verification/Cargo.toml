[package]
name = "ipfs_dnslink"
version = "0.1.0"
edition = "2021"
publish = false

[dependencies]
anyhow = "1"
async-std = { version = "1", features = ["attributes"] }
async-trait = "0.1"
clap = { version = "*", features = ["derive", "env"] }
cloudflare = "*"
ipfs-api = "*"
pinata-sdk = "*"
strum = "*"
strum_macros = "*"
