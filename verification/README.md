# pq_bench

Verified core of a post-quantum handshake benchmark for an SP1 zkVM program.

The program does the cryptographic work a TLS 1.3 + ML-KEM-768 + ML-DSA-65
verifier circuit will do (HKDF key schedule, one AES-256-GCM record round,
ML-KEM-768 decapsulation, ML-DSA-65 verification) and commits a SHA-256 hash
of every input, the values derived from them and the signature verdict. The host mints fresh fixtures, runs
and proves the program, and reports proving-time statistics.

Layout:

- `src/` — the library, verified with Verus.
  - `digest`, `key_schedule`, `record`, `kem`, `dsa`: one module per
    primitive. Each holds the trusted wrappers around its outside crate
    (`sha2`, `hkdf`, `aes-gcm`, `ml-kem`, `ml-dsa`) and the verified functions
    built on them.
  - `stub`: the program's computation, `run_stub`, and its commitment.
  - `fixtures`: fixture minting.
  - `report`: ranking of proving times, percentiles and reports.
- `tests/` — tests run against the real outside crates.
- `app/` — the host runner (argument parsing, SP1 SDK calls, JSON output) and
  the zkVM program's entry (reading inputs, committing outputs).
