[package]
name = "ring_proof"
version = "0.1.0"
edition = "2021"
publish = false

[dependencies]
ark-bls12-381 = "*"
ark-ec = "*"
ark-ff = "*"
ark-serialize = "*"
ark-std = "*"
ark-transcript = "*"
w3f-pcs = "*"

[dev-dependencies]
ark-ed-on-bls12-381-bandersnatch = "*"
ark-poly = "*"
