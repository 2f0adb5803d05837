[package]
name = "sage"
version = "0.1.0"
edition = "2021"
publish = false

[dependencies]
chia-bls = "=0.36.1"
chia-protocol = "=0.36.1"
chia-puzzle-types = "=0.36.1"
chia-puzzles = "=0.20.3"
chia-sdk-driver = "=0.36.0"
chia-sdk-signer = "=0.36.0"
clvm-traits = "=0.36.1"
clvmr = "=0.16.4"
bip39 = "=3.0.0"
hex = "=0.4.3"
rand = "=0.8.8"
rand_chacha = "=0.3.1"
