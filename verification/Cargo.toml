[package]
name = "web3_wallet"
version = "0.1.0"
edition = "2021"
publish = false

[dependencies]
hex = "0.4"
secp256k1 = { version = "=0.27.0", features = ["rand-std"] }
tiny-keccak = { version = "2.0", features = ["keccak"] }
rand = "0.8"
web3 = { version = "0.19", default-features = false, features = ["http", "signing"] }
tokio = { version = "1", features = ["rt-multi-thread", "macros"] }
anyhow = "1"
clap = { version = "4", features = ["derive"] }
