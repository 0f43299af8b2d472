[package]
name = "escrow_harness"
version = "0.1.0"
edition = "2021"
publish = false

[dependencies]
solana-sdk = "=1.18.26"
tokio = { version = "=1.47.5", default-features = false, features = ["rt-multi-thread", "macros", "time"] }

[dev-dependencies]
borsh = "0.10"
