[package]
name = "x402_swarm"
version = "0.2.0"
edition = "2021"
publish = false

[dependencies]
serde = { version = "1", features = ["derive"] }
serde_json = "1"
bincode = "1"
memmap2 = "0.9"
fs2 = "0.4"
sled = "0.34"
notify = { version = "6", default-features = false }
tokio = { version = "1", features = ["macros", "rt-multi-thread", "time"] }
url = "2"
extism-pdk = "1"
alloy = { version = "0.3", default-features = false, features = ["std", "providers", "contract", "signer-local", "network"] }
