[package]
name = "mint_zkp"
version = "0.1.0"
edition = "2021"
publish = false

[dependencies]
bellman = "*"
bls12_381 = "*"
group = "*"
jubjub = "*"
sapling-crypto = "*"
rand = "0.8"
serde = "1"
