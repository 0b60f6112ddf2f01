//! Verified core of a post-quantum handshake benchmark: the cryptographic
//! work of a stub TLS 1.3 + ML-KEM-768 + ML-DSA-65 verifier, the fixtures it
//! runs on, and the statistics reported over proving runs.
pub mod digest;
pub mod dsa;
pub mod fixtures;
pub mod kem;
pub mod key_schedule;
pub mod record;
pub mod report;
pub mod stub;
