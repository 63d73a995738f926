[package]
name = "witnessing"
version = "0.1.0"
edition = "2021"
publish = false

[dependencies]
ark-bls12-381 = "0.4"
ark-bn254 = "0.4"
ark-ff = "0.4"
halo2curves = "*"
serde = { version = "1", features = ["derive"] }
serde_json = "1"
smallvec = "1"
