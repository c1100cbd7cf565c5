[package]
name = "ripple_core"
version = "0.1.0"
edition = "2021"
publish = false

[dependencies]
sha2 = "=0.10.9"
bs58 = "=0.5.1"
ecies = { version = "=0.2.6", default-features = false, features = ["pure"] }
libsecp256k1 = "=0.7.2"
emailmessage = "=0.2.2"
num-bigint = "=0.4.8"
serde = { version = "=1.0.229", features = ["derive"] }
serde_cbor = "=0.11.2"
tokio = { version = "=1.54.1", features = ["sync", "rt", "rt-multi-thread", "macros"] }
chrono = "=0.4.45"
multiaddr = "=0.18.2"
libp2p-identity = { version = "=0.2.14", features = ["peerid"] }
num_cpus = "=1.17.0"
log = "=0.4.35"
anyhow = "=1.0.104"
rand = "=0.8.8"
futures = "=0.3.34"
