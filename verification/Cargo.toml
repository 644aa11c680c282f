[package]
name = "shredstream_proxy"
version = "0.1.0"
edition = "2021"
publish = false

[dependencies]
borsh = "1"
solana-sdk = "2"
tokio = { version = "1", features = ["rt-multi-thread", "sync", "macros"] }
tonic = "0.12"
prost = "0.13"
crossbeam-channel = "0.5"
log = "0.4"
