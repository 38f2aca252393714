[package]
name = "cbm_harness"
version = "0.1.0"
edition = "2021"
publish = false

[dependencies]
base64 = "=0.13.1"
bincode = "=1.3.3"
clap = { version = "=4.6.7", features = ["derive"] }
dotenv = "=0.15.0"
indicatif = "=0.17.11"
serde = { version = "=1.0.229", features = ["derive"] }
serde_json = "=1.0.151"
solana-sdk = "=2.0.25"
termcolor = "=1.4.1"
