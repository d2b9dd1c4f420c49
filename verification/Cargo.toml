[package]
name = "nft_ledger"
version = "0.1.0"
edition = "2021"
publish = false

[dependencies]
gmeta = "=1.7.1"
gstd = "=1.7.1"
hashbrown = "=0.14.5"
primitive-types = "=0.12.2"
sp-core-hashing = "=9.0.0"
