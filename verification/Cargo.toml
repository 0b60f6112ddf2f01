[package]
name = "pq_bench"
version = "0.1.0"
edition = "2021"
publish = false

[dependencies]
aes-gcm = "=0.10.3"
hkdf = "=0.12.4"
sha2 = "=0.10.9"
ml-kem = "=0.2.3"
ml-dsa = "=0.0.4"
rand = "=0.8.5"
serde = { version = "=1.0.229", features = ["derive"] }
serde_json = "=1.0.154"
clap = { version = "=4.6.7", features = ["derive"] }
anyhow = "=1.0.104"
sp1-zkvm = { version = "=5.2.4", default-features = false, features = ["lib"] }
