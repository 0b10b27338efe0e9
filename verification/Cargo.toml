[package]
name = "pchain_network"
version = "0.5.0"
edition = "2021"
publish = false

[dependencies]
libp2p = { version = "=0.53.2", features = ["gossipsub", "kad", "identify", "ping", "noise", "tcp", "tokio", "yamux", "macros", "ed25519"] }
libp2p-mplex = "0.41"
hotstuff_rs = "=0.3.0"
pchain-types = "=0.4.3"
borsh = "0.10"
base64url = "=0.1.0"
tokio = { version = "1", features = ["macros", "rt-multi-thread", "sync", "time"] }
futures = "0.3"
log = "0.4"
async-trait = "0.1"
