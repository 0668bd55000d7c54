[package]
name = "shake_multihash"
version = "0.1.0"
edition = "2021"
publish = false

[dependencies]
sha3 = "0.10"
multihash = "0.19"

[dev-dependencies]
cid = "0.11"
multibase = "0.9"
amcl_wrapper = "0.4"
