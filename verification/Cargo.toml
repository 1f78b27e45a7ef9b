[package]
name = "prover"
version = "0.1.0"
edition = "2021"
publish = false

[dependencies]
halo2_proofs = "*"
rand = "*"
serde = { version = "*", features = ["derive"] }
serde_json = "*"
