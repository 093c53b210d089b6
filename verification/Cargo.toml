[package]
name = "chaum_pedersen"
version = "0.1.0"
edition = "2021"
publish = false

[dependencies]
ark-bls12-381 = "0.4"
ark-ec = "0.4"
ark-ff = "0.4"
ark-serialize = "0.4"
digest = "0.10"
sha2 = "0.10"
zeroize = "1"
