//! Fresh cryptographic fixtures for the stub verifier: an ML-KEM-768 key pair
//! and encapsulation, a hybrid shared secret built on the encapsulated key,
//! the fixed signed message and transcript hash. The ML-DSA-65 key pair and
//! signature are made by the caller: the `ml-dsa` crate's signing can panic
//! (its rejection-sampling loop is bounded), and nothing here can rule that
//! out.
use vstd::prelude::*;
use vstd::string::StringSliceAdditionalSpecFns;
use crate::digest::{sha256, sha256_of};
use crate::dsa::{ML_DSA_65_SIGNATURE_LEN, ML_DSA_65_VERIFYING_KEY_LEN};
use crate::kem::{
    embedded_encapsulation_key, ml_kem_768_encaps, ml_kem_768_encapsulate, ml_kem_768_generate,
};
use crate::kem::{ML_KEM_768_CIPHERTEXT_LEN, ML_KEM_768_DECAP_KEY_LEN};
use crate::stub::{well_sized, StubInputs};

verus! {

/// The message the fixture signature is on.
pub const HANDSHAKE_FINISHED_MESSAGE: &'static str = "sacredvote-pq-bench/handshake-finished";

/// What the fixture transcript hash is the SHA-256 digest of.
pub const SERVER_FINISHED_TRANSCRIPT: &'static str = "sacredvote-pq-bench/server-finished";

/// The bytes of the signed message.
pub open spec fn handshake_finished_message() -> Seq<u8> {
    HANDSHAKE_FINISHED_MESSAGE.spec_bytes()
}

/// The fixture transcript hash.
pub open spec fn fixture_transcript_hash() -> Seq<u8> {
    sha256(SERVER_FINISHED_TRANSCRIPT.spec_bytes())
}

/// Bytes `a[i] ^ b[i]`, as long as `a`.
pub open spec fn xor_bytes(a: Seq<u8>, b: Seq<u8>) -> Seq<u8> {
    Seq::new(a.len(), |i: int| a[i] ^ b[i])
}

/// Whether `ct` is the ciphertext of an encapsulation, with some 32-byte
/// message, to the encapsulation key held in the decapsulation key `dk`.
pub open spec fn encapsulates_to(dk: Seq<u8>, ct: Seq<u8>) -> bool {
    exists|m: Seq<u8>|
        m.len() == 32 && (#[trigger] ml_kem_768_encaps(embedded_encapsulation_key(dk), m)).0
            == ct
}

/// Trusted: fills 32 bytes from the operating system's random number
/// generator (`rand::RngCore::fill_bytes` on `rand::rngs::OsRng`). The bytes
/// are random, so the contract claims nothing of them.
#[verifier::external_body]
fn fresh_random_bytes() -> [u8; 32] {
    let mut bytes = [0u8; 32];
    rand::RngCore::fill_bytes(&mut rand::rngs::OsRng, &mut bytes);
    bytes
}

/// XORs two 32-byte vectors.
pub fn xor_32(a: &[u8; 32], b: &[u8; 32]) -> (out: [u8; 32])
    ensures
        out@ == xor_bytes(a@, b@),
{
    let mut out = [0u8; 32];
    for i in 0..32
        invariant
            forall|j: int| 0 <= j < i ==> out@[j] == a@[j] ^ b@[j],
    {
        out.set(i, a[i] ^ b[i]);
    }
    assert(out@ =~= xor_bytes(a@, b@));
    out
}

/// Puts the generated material together as stub inputs: the hybrid shared
/// secret is `mask` XORed with the ML-KEM shared key, the transcript hash is
/// the fixture's and the signed message is the fixed handshake message.
pub fn assemble_fixtures(
    kem_decap_key: Vec<u8>,
    kem_ciphertext: Vec<u8>,
    kem_shared: &[u8; 32],
    mask: &[u8; 32],
    dsa_verifying_key: Vec<u8>,
    dsa_signature: Vec<u8>,
) -> (inputs: StubInputs)
    ensures
        inputs.hybrid_shared_secret@ == xor_bytes(mask@, kem_shared@),
        inputs.transcript_hash@ == fixture_transcript_hash(),
        inputs.ml_kem_ciphertext@ == kem_ciphertext@,
        inputs.ml_kem_decap_key@ == kem_decap_key@,
        inputs.ml_dsa_msg@ == handshake_finished_message(),
        inputs.ml_dsa_sig@ == dsa_signature@,
        inputs.ml_dsa_verifying_key@ == dsa_verifying_key@,
{
    let msg = vstd::slice::slice_to_vec(HANDSHAKE_FINISHED_MESSAGE.as_bytes());
    let transcript_hash = sha256_of(SERVER_FINISHED_TRANSCRIPT.as_bytes());
    let hybrid_shared_secret = xor_32(mask, kem_shared);
    StubInputs {
        hybrid_shared_secret,
        transcript_hash,
        ml_kem_ciphertext: kem_ciphertext,
        ml_kem_decap_key: kem_decap_key,
        ml_dsa_msg: msg,
        ml_dsa_sig: dsa_signature,
        ml_dsa_verifying_key: dsa_verifying_key,
    }
}

/// Mints fresh ML-KEM-768 fixtures from the operating system's randomness
/// and puts them together with the caller's ML-DSA-65 verifying key and
/// signature (made on [`HANDSHAKE_FINISHED_MESSAGE`]). Whatever keys come
/// out, the ciphertext is an encapsulation to the key pair whose
/// decapsulation key is returned, and the inputs carry the fixed message and
/// transcript hash. The hybrid shared secret is a fresh random 32-byte vector
/// XORed with the encapsulated key ([`assemble_fixtures`] states the XOR);
/// since the vector is random, no clause here constrains its value.
pub fn mint_fixtures(dsa_verifying_key: Vec<u8>, dsa_signature: Vec<u8>) -> (inputs: StubInputs)
    ensures
        inputs.ml_kem_decap_key.len() == ML_KEM_768_DECAP_KEY_LEN,
        inputs.ml_kem_ciphertext.len() == ML_KEM_768_CIPHERTEXT_LEN,
        encapsulates_to(inputs.ml_kem_decap_key@, inputs.ml_kem_ciphertext@),
        inputs.transcript_hash@ == fixture_transcript_hash(),
        inputs.ml_dsa_msg@ == handshake_finished_message(),
        inputs.ml_dsa_verifying_key@ == dsa_verifying_key@,
        inputs.ml_dsa_sig@ == dsa_signature@,
        well_sized(inputs) <==> (dsa_verifying_key.len() == ML_DSA_65_VERIFYING_KEY_LEN
            && dsa_signature.len() == ML_DSA_65_SIGNATURE_LEN),
{
    let (dk, ek) = ml_kem_768_generate();
    let encapsulation = ml_kem_768_encapsulate(ek.as_slice());
    let mask = fresh_random_bytes();
    proof {
        let m = choose|m: Seq<u8>|
            m.len() == 32 && encapsulation.view_pair() == #[trigger] ml_kem_768_encaps(ek@, m);
        assert(ml_kem_768_encaps(embedded_encapsulation_key(dk@), m).0 == encapsulation.ciphertext@);
    }
    assemble_fixtures(
        dk,
        encapsulation.ciphertext,
        &encapsulation.shared,
        &mask,
        dsa_verifying_key,
        dsa_signature,
    )
}

} // verus!
