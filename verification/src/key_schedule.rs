//! The TLS 1.3 key-schedule shape: HKDF-SHA256 keyed by the handshake
//! transcript hash and the hybrid shared secret, expanded under the five
//! traffic-secret labels.
use vstd::prelude::*;
use vstd::string::StringSliceAdditionalSpecFns;

verus! {

/// HKDF-Extract (RFC 5869) with SHA-256: the pseudorandom key for `salt` and
/// input keying material `ikm`.
pub uninterp spec fn hkdf_sha256_extract(salt: Seq<u8>, ikm: Seq<u8>) -> Seq<u8>;

/// HKDF-Expand (RFC 5869) with SHA-256: `len` bytes of output keying material
/// for the pseudorandom key `prk` and the context string `info`.
pub uninterp spec fn hkdf_sha256_expand(prk: Seq<u8>, info: Seq<u8>, len: nat) -> Seq<u8>;

/// Trusted: calls `hkdf::Hkdf::<sha2::Sha256>::extract(Some(salt), ikm)` and
/// returns the pseudorandom key it computes, dropping the HKDF state. The
/// contract claims that this key is HKDF-Extract of `salt` and `ikm`.
#[verifier::external_body]
fn hkdf_extract(salt: &[u8], ikm: &[u8]) -> (prk: [u8; 32])
    ensures
        prk@ == hkdf_sha256_extract(salt@, ikm@),
{
    let (prk, _) = hkdf::Hkdf::<sha2::Sha256>::extract(Some(salt), ikm);
    prk.into()
}

/// Trusted: rebuilds the HKDF state from the pseudorandom key with
/// `hkdf::Hkdf::<sha2::Sha256>::from_prk` (which refuses only keys shorter than
/// 32 bytes) and calls its `expand` for 32 bytes of output (which refuses only
/// more than 255 * 32 bytes). The contract claims that the output is
/// HKDF-Expand of `prk` and `info` for 32 bytes.
#[verifier::external_body]
fn hkdf_expand(prk: &[u8; 32], info: &[u8]) -> (okm: [u8; 32])
    ensures
        okm@ == hkdf_sha256_expand(prk@, info@, 32),
{
    let hk = hkdf::Hkdf::<sha2::Sha256>::from_prk(prk).expect("hkdf prk length");
    let mut okm = [0u8;32];
    hk.expand(info, &mut okm).expect("hkdf expand");
    okm
}

/// Label of the client handshake traffic secret.
pub const CLIENT_HS_TRAFFIC: &'static str = "tls13 c hs traffic";

/// Label of the server handshake traffic secret.
pub const SERVER_HS_TRAFFIC: &'static str = "tls13 s hs traffic";

/// Label of the client application traffic secret.
pub const CLIENT_AP_TRAFFIC: &'static str = "tls13 c ap traffic";

/// Label of the server application traffic secret.
pub const SERVER_AP_TRAFFIC: &'static str = "tls13 s ap traffic";

/// Label of the exporter master secret.
pub const EXPORTER_MASTER: &'static str = "tls13 exp master";

/// How many traffic secrets the schedule derives.
pub const TRAFFIC_SECRET_COUNT: usize = 5;

/// The label of the `i`-th traffic secret, in derivation order.
pub open spec fn spec_traffic_label(i: int) -> Seq<u8> {
    if i == 0 {
        CLIENT_HS_TRAFFIC.spec_bytes()
    } else if i == 1 {
        SERVER_HS_TRAFFIC.spec_bytes()
    } else if i == 2 {
        CLIENT_AP_TRAFFIC.spec_bytes()
    } else if i == 3 {
        SERVER_AP_TRAFFIC.spec_bytes()
    } else {
        EXPORTER_MASTER.spec_bytes()
    }
}

/// The bytes of the label of the `i`-th traffic secret.
pub fn traffic_label(i: usize) -> (label: &'static [u8])
    requires
        i < TRAFFIC_SECRET_COUNT,
    ensures
        label@ == spec_traffic_label(i as int),
{
    if i == 0 {
        CLIENT_HS_TRAFFIC.as_bytes()
    } else if i == 1 {
        SERVER_HS_TRAFFIC.as_bytes()
    } else if i == 2 {
        CLIENT_AP_TRAFFIC.as_bytes()
    } else if i == 3 {
        SERVER_AP_TRAFFIC.as_bytes()
    } else {
        EXPORTER_MASTER.as_bytes()
    }
}

/// The `i`-th traffic secret: HKDF-Expand, under the `i`-th label, of the
/// pseudorandom key extracted from the shared secret with the transcript hash
/// as salt.
pub open spec fn traffic_secret(transcript_hash: Seq<u8>, shared_secret: Seq<u8>, i: int) -> Seq<
    u8,
> {
    hkdf_sha256_expand(
        hkdf_sha256_extract(transcript_hash, shared_secret),
        spec_traffic_label(i),
        32,
    )
}

/// Derives the five traffic secrets of the key schedule, in label order.
pub fn derive_traffic_keys(transcript_hash: &[u8; 32], shared_secret: &[u8; 32]) -> (keys: Vec<
    [u8; 32],
>)
    ensures
        keys.len() == TRAFFIC_SECRET_COUNT,
        forall|i: int|
            0 <= i < TRAFFIC_SECRET_COUNT ==> (#[trigger] keys@[i])@ == traffic_secret(
                transcript_hash@,
                shared_secret@,
                i,
            ),
{
    let prk = hkdf_extract(transcript_hash, shared_secret);
    let mut keys: Vec<[u8; 32]> = Vec::new();
    for i in 0..TRAFFIC_SECRET_COUNT
        invariant
            keys.len() == i,
            prk@ == hkdf_sha256_extract(transcript_hash@, shared_secret@),
            forall|j: int|
                0 <= j < i ==> (#[trigger] keys@[j])@ == traffic_secret(
                    transcript_hash@,
                    shared_secret@,
                    j,
                ),
    {
        let okm = hkdf_expand(&prk, traffic_label(i));
        keys.push(okm);
    }
    keys
}

} // verus!
