[package]
name = "mm2"
version = "0.1.0"
edition = "2021"
publish = false

[dependencies]
async-trait = "0.1"
bitcoin = "0.27"
bitcoin_hashes = "0.10"
chrono = "0.4"
derive_more = "0.99"
futures = "0.3"
gstuff = "*"
hex = "0.4"
http = "0.2"
lightning = "0.0.105"
lightning-background-processor = "0.0.105"
lightning-invoice = "0.13"
parking_lot = "0.11"
rand = "0.7"
secp256k1 = "0.20"
serde = { version = "1", features = ["derive"] }
serde_json = "1"
