[package]
name = "kona"
version = "0.1.0"
edition = "2021"
publish = false

[dependencies]
alloy-primitives = { version = "=1.7.3", default-features = false, features = ["std"] }
alloy-consensus = { version = "=1.8.3", default-features = false }
alloy-eips = { version = "=1.8.3", default-features = false }
alloy-rlp = { version = "=0.3.17", default-features = false }
alloy-trie = { version = "=0.9.9", default-features = false }
op-alloy-consensus = { version = "=0.22.4", default-features = false }
op-alloy-rpc-types-engine = { version = "=0.22.4", default-features = false, features = ["serde"] }
alloy-provider = { version = "=1.8.3", default-features = false, features = ["reqwest"] }
alloy-rpc-client = { version = "=1.8.3", default-features = false, features = ["reqwest"] }
alloy-transport = { version = "=1.8.3", default-features = false, features = ["throttle"] }
alloy-transport-http = { version = "=1.8.3", default-features = false, features = ["reqwest"] }
reqwest = { version = "0.13", default-features = false }
async-trait = "0.1"
serde_json = "1"
serde_with = { version = "=3.12.0", default-features = false }
spin = { version = "0.10", default-features = false, features = ["rwlock"] }
