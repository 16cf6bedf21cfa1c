[package]
name = "cryptix_miner"
version = "0.2.6"
edition = "2021"
publish = false

[dependencies]
blake3 = { version = "1", features = ["pure"] }
clap = { version = "3.2", features = ["derive"] }
log = "0.4"
