[package]
name = "fil_cns"
version = "0.1.0"
edition = "2021"
publish = false

[dependencies]
base64 = "0.21"
blake2b_simd = "1"
bls-signatures = "*"
cid = "0.11"
fvm_ipld_amt = "0.7"
fvm_ipld_blockstore = "0.3"
serde = { version = "1", features = ["derive"] }
serde_json = "1"
