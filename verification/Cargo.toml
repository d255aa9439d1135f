[package]
name = "sector_update"
version = "0.1.0"
edition = "2021"
publish = false

[dependencies]
anyhow = "=1.0.104"
bincode = "=1.3.3"
blstrs = "=0.7.1"
filecoin-hashers = { version = "=14.1.0", default-features = false, features = ["poseidon", "sha256"] }
fr32 = "=12.1.0"
log = "=0.4.34"
memmap = "=0.7.0"
merkletree = "=0.23.0"
storage-proofs-core = { version = "=19.1.0", default-features = false }
storage-proofs-porep = { version = "=19.1.0", default-features = false }
storage-proofs-update = { version = "=19.1.0", default-features = false }
