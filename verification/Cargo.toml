[package]
name = "magic-carpet"
version = "0.1.0"
edition = "2021"
publish = false

[dependencies]
nostr = { version = "=0.44.8", features = ["nip57"] }
nostr-sdk = "=0.44.1"
base64 = "=0.23.1"
bip39 = { version = "=2.2.2", features = ["rand"] }
bdk_wallet = { version = "=3.2.0", features = ["file_store"] }
bdk_esplora = "=0.22.3"
reqwest = "=0.12.28"
serde = { version = "=1.0.229", features = ["derive"] }
serde_json = "=1.0.154"
tokio = { version = "=1.54.1", features = ["rt-multi-thread", "macros"] }
dirs = "=7.0.0"
thiserror = "=2.0.21"
agcli = "=0.19.0"
