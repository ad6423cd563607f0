[package]
name = "pq_kem"
version = "0.1.0"
edition = "2021"
publish = false

[dependencies]
pqc_kyber = { version = "*", features = ["kyber1024"] }
rand = "0.8"
