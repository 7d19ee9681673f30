[package]
name = "zkid"
version = "0.1.0"
edition = "2021"
publish = false

[dependencies]
light-poseidon = "=0.4.1"
ark-bn254 = "=0.5.0"
ark-ff = "=0.5.0"
ark-serialize = "=0.5.0"
base64 = "=0.23.1"
serde_json = "=1.0.151"
