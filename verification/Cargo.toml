[package]
name = "penumbra"
version = "0.1.0"
edition = "2021"
publish = false

[dependencies]
blake2b_simd = "=1.0.5"
ark-ff = "=0.4.2"
ark-ed-on-bls12-377 = "=0.4.0"
bech32 = "0.9"
anyhow = "=1.0.104"
camino = "=1.2.6"
clap = { version = "=3.2.25", features = ["derive"] }
